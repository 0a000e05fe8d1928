//! The chunk codec: a file, or a marker that deletes one, framed as packets
//! of a fixed size.
//!
//! A packet is a header of four little-endian `u16` values (type, transfer
//! id, total packages, package) followed by the content, which is padded
//! with zeros to the full chunk size.

use crate::constants::MAX_CHUNK_SIZE;
use vstd::prelude::*;
use vstd::string::StringSliceAdditionalSpecFns;

verus! {

/// The two bytes of a `u16`, least significant first.
pub open spec fn le16(x: u16) -> Seq<u8> {
    seq![(x % 256) as u8, (x / 256) as u8]
}

/// The `u16` that two bytes spell, least significant first.
pub open spec fn from_le16(low: u8, high: u8) -> u16 {
    (low + 256 * high) as u16
}

/// A sequence of `n` equal bytes.
pub open spec fn filled(n: nat, byte: u8) -> Seq<u8> {
    Seq::new(n, |i: int| byte)
}

/// Reading back the bytes of a `u16` gives the same number.
pub proof fn lemma_le16_roundtrip(x: u16)
    ensures
        le16(x).len() == 2,
        from_le16(le16(x)[0], le16(x)[1]) == x,
{
}

/// Appends the two bytes of `x`, least significant first.
pub fn push_le16(out: &mut Vec<u8>, x: u16)
    ensures
        final(out)@ == old(out)@ + le16(x),
{
    out.push((x % 256) as u8);
    out.push((x / 256) as u8);
}

/// Appends a copy of `src`.
pub fn push_bytes(out: &mut Vec<u8>, src: &[u8])
    ensures
        final(out)@ == old(out)@ + src@,
{
    let mut i: usize = 0;
    while i < src.len()
        invariant
            i <= src@.len(),
            out@ == old(out)@ + src@.subrange(0, i as int),
        decreases src@.len() - i,
    {
        out.push(src[i]);
        i += 1;
    }
}

/// Appends `n` copies of `byte`.
pub fn push_filled(out: &mut Vec<u8>, n: usize, byte: u8)
    ensures
        final(out)@ == old(out)@ + filled(n as nat, byte),
{
    let mut i: usize = 0;
    while i < n
        invariant
            i <= n,
            out@ == old(out)@ + filled(i as nat, byte),
        decreases n - i,
    {
        out.push(byte);
        i += 1;
    }
}

/// The kinds of chunk in the transfer protocol.
#[derive(Debug, Clone, Copy, PartialEq, Eq, Structural)]
pub enum ChunkType {
    FileStart,
    FileChunk,
    FileEnd,
    Complete,
    FileDelete,
}

impl ChunkType {
    /// The number that stands for the kind on the wire.
    pub open spec fn spec_code(self) -> u16 {
        match self {
            ChunkType::FileStart => 1,
            ChunkType::FileChunk => 2,
            ChunkType::FileEnd => 3,
            ChunkType::Complete => 4,
            ChunkType::FileDelete => 5,
        }
    }

    #[verifier::when_used_as_spec(spec_code)]
    pub fn code(self) -> (c: u16)
        ensures
            c == self.spec_code(),
    {
        match self {
            ChunkType::FileStart => 1,
            ChunkType::FileChunk => 2,
            ChunkType::FileEnd => 3,
            ChunkType::Complete => 4,
            ChunkType::FileDelete => 5,
        }
    }
}

impl From<ChunkType> for u16 {
    fn from(val: ChunkType) -> (r: Self) {
        val.code()
    }
}

impl vstd::std_specs::convert::FromSpecImpl<ChunkType> for u16 {
    open spec fn obeys_from_spec() -> bool {
        true
    }

    open spec fn from_spec(val: ChunkType) -> Self {
        val.spec_code()
    }
}

/// One framed unit of a transfer.
///
/// A chunk is identified, for acknowledgment, by its type and package
/// within one transfer id. Whether it was acknowledged is local state and is
/// not transmitted.
#[derive(Debug, Clone)]
pub struct Chunk {
    pub type_: ChunkType,
    pub id: u16,
    pub package: u16,
    pub total_packages: u16,
    pub content: Vec<u8>,
    pub acked: bool,
}

/// What a chunk holds, as plain values.
pub struct ChunkModel {
    pub type_: ChunkType,
    pub id: u16,
    pub package: u16,
    pub total_packages: u16,
    pub content: Seq<u8>,
    pub acked: bool,
}

impl View for Chunk {
    type V = ChunkModel;

    open spec fn view(&self) -> ChunkModel {
        ChunkModel {
            type_: self.type_,
            id: self.id,
            package: self.package,
            total_packages: self.total_packages,
            content: self.content@,
            acked: self.acked,
        }
    }
}

impl ChunkModel {
    /// The eight header bytes.
    pub open spec fn header(self) -> Seq<u8> {
        le16(self.type_.spec_code()) + le16(self.id) + le16(self.total_packages) + le16(
            self.package,
        )
    }

    /// Number of zero bytes that fill the content up to the chunk size.
    pub open spec fn padding(self) -> nat {
        if self.content.len() <= MAX_CHUNK_SIZE {
            (MAX_CHUNK_SIZE - self.content.len()) as nat
        } else {
            0
        }
    }

    /// The packet of the chunk: header, content, zero padding.
    pub open spec fn packet(self) -> Seq<u8> {
        self.header() + self.content + filled(self.padding(), 0)
    }
}

/// The models of a sequence of chunks, one by one.
pub open spec fn chunk_models(chunks: Seq<Chunk>) -> Seq<ChunkModel> {
    chunks.map_values(|c: Chunk| c@)
}

impl Chunk {
    /// The same chunk with the given acknowledgment flag.
    pub open spec fn with_acked(&self, acked: bool) -> Chunk {
        Chunk { acked, ..*self }
    }

    /// The packet of the chunk: header, content, zero padding.
    pub open spec fn packet_spec(&self) -> Seq<u8> {
        self@.packet()
    }

    /// A chunk without content that is not yet acknowledged.
    pub fn new(type_: ChunkType, id: u16, package: u16, total_packages: u16) -> (r: Self)
        ensures
            r.type_ == type_,
            r.id == id,
            r.package == package,
            r.total_packages == total_packages,
            r.content@ == Seq::<u8>::empty(),
            !r.acked,
    {
        Self { type_, id, package, total_packages, content: Vec::new(), acked: false }
    }

    /// A chunk with the given content that is not yet acknowledged.
    pub fn with_content(
        type_: ChunkType,
        id: u16,
        package: u16,
        total_packages: u16,
        content: Vec<u8>,
    ) -> (r: Self)
        ensures
            r.type_ == type_,
            r.id == id,
            r.package == package,
            r.total_packages == total_packages,
            r.content == content,
            !r.acked,
    {
        Self { type_, id, package, total_packages, content, acked: false }
    }

    /// Generates the packet bytes of this chunk. With content of at most the
    /// chunk size the packet has exactly 60 bytes.
    pub fn packet(&self) -> (out: Vec<u8>)
        ensures
            out@ == self.packet_spec(),
            self.content@.len() <= MAX_CHUNK_SIZE ==> out@.len() == 60,
    {
        let mut out = self.base_packet();
        push_bytes(&mut out, self.content.as_slice());
        let padding = if self.content.len() <= MAX_CHUNK_SIZE {
            MAX_CHUNK_SIZE - self.content.len()
        } else {
            0
        };
        push_filled(&mut out, padding, 0);
        out
    }

    /// Generates the header of the packet.
    fn base_packet(&self) -> (out: Vec<u8>)
        ensures
            out@ == self@.header(),
            out@.len() == 8,
    {
        let mut out: Vec<u8> = Vec::with_capacity(8);
        push_le16(&mut out, self.type_.code());
        push_le16(&mut out, self.id);
        push_le16(&mut out, self.total_packages);
        push_le16(&mut out, self.package);
        out
    }

    pub fn is_acked(&self) -> (b: bool)
        ensures
            b == self.acked,
    {
        self.acked
    }

    pub fn set_acked(&mut self, acked: bool)
        ensures
            *final(self) == old(self).with_acked(acked),
    {
        self.acked = acked;
    }
}

/// A chunk that carries file data.
#[derive(Debug, Clone)]
pub struct FileChunk {
    chunk: Chunk,
}

impl View for FileChunk {
    type V = Chunk;

    closed spec fn view(&self) -> Chunk {
        self.chunk
    }
}

impl FileChunk {
    pub fn new(id: u16, package: u16, total_packages: u16, content: Vec<u8>) -> (r: Self)
        ensures
            r@.type_ == ChunkType::FileChunk,
            r@.id == id,
            r@.package == package,
            r@.total_packages == total_packages,
            r@.content == content,
            !r@.acked,
    {
        Self { chunk: Chunk::with_content(ChunkType::FileChunk, id, package, total_packages, content) }
    }

    pub fn inner(&self) -> (r: &Chunk)
        ensures
            *r == self@,
    {
        &self.chunk
    }

    pub fn inner_mut(&mut self) -> (r: &mut Chunk)
        ensures
            *r == old(self)@,
            final(self)@ == *final(r),
    {
        &mut self.chunk
    }

    /// Gives up the wrapper for the chunk itself.
    pub fn into_inner(self) -> (r: Chunk)
        ensures
            r == self@,
    {
        self.chunk
    }
}

/// The content of a chunk that starts a file: the length of the name in one
/// byte, the name, the width of the size field, and the file's size.
pub open spec fn file_start_content(filename: Seq<u8>, filesize: u16) -> Seq<u8> {
    seq![(filename.len() % 256) as u8] + filename + seq![2u8] + le16(filesize)
}

/// The content of a chunk that deletes a file: the length of the name in one
/// byte, then the name.
pub open spec fn file_delete_content(filename: Seq<u8>) -> Seq<u8> {
    seq![(filename.len() % 256) as u8] + filename
}

/// A chunk that marks the start of a file.
#[derive(Debug, Clone)]
pub struct FileStart {
    chunk: Chunk,
}

impl View for FileStart {
    type V = Chunk;

    closed spec fn view(&self) -> Chunk {
        self.chunk
    }
}

impl FileStart {
    pub fn new(id: u16, package: u16, total_packages: u16, filename: &str, filesize: u16) -> (r:
        Self)
        ensures
            r@.type_ == ChunkType::FileStart,
            r@.id == id,
            r@.package == package,
            r@.total_packages == total_packages,
            r@.content@ == file_start_content(filename.spec_bytes(), filesize),
            !r@.acked,
    {
        let name = filename.as_bytes();
        let mut content: Vec<u8> = Vec::new();
        content.push((name.len() % 256) as u8);
        push_bytes(&mut content, name);
        content.push(2);
        push_le16(&mut content, filesize);
        Self { chunk: Chunk::with_content(ChunkType::FileStart, id, package, total_packages, content) }
    }

    pub fn inner(&self) -> (r: &Chunk)
        ensures
            *r == self@,
    {
        &self.chunk
    }

    pub fn inner_mut(&mut self) -> (r: &mut Chunk)
        ensures
            *r == old(self)@,
            final(self)@ == *final(r),
    {
        &mut self.chunk
    }

    /// Gives up the wrapper for the chunk itself.
    pub fn into_inner(self) -> (r: Chunk)
        ensures
            r == self@,
    {
        self.chunk
    }
}

/// A chunk that marks the end of a file.
#[derive(Debug, Clone)]
pub struct FileEnd {
    chunk: Chunk,
}

impl View for FileEnd {
    type V = Chunk;

    closed spec fn view(&self) -> Chunk {
        self.chunk
    }
}

impl FileEnd {
    pub fn new(id: u16) -> (r: Self)
        ensures
            r@.type_ == ChunkType::FileEnd,
            r@.id == id,
            r@.package == 0,
            r@.total_packages == 0,
            r@.content@ == Seq::<u8>::empty(),
            !r@.acked,
    {
        Self { chunk: Chunk::new(ChunkType::FileEnd, id, 0, 0) }
    }

    pub fn inner(&self) -> (r: &Chunk)
        ensures
            *r == self@,
    {
        &self.chunk
    }

    pub fn inner_mut(&mut self) -> (r: &mut Chunk)
        ensures
            *r == old(self)@,
            final(self)@ == *final(r),
    {
        &mut self.chunk
    }

    /// Gives up the wrapper for the chunk itself.
    pub fn into_inner(self) -> (r: Chunk)
        ensures
            r == self@,
    {
        self.chunk
    }
}

/// A chunk that deletes a file on the device.
#[derive(Debug, Clone)]
pub struct FileDelete {
    chunk: Chunk,
}

impl View for FileDelete {
    type V = Chunk;

    closed spec fn view(&self) -> Chunk {
        self.chunk
    }
}

impl FileDelete {
    pub fn new(id: u16, filename: &str) -> (r: Self)
        ensures
            r@.type_ == ChunkType::FileDelete,
            r@.id == id,
            r@.package == 0,
            r@.total_packages == 0,
            r@.content@ == file_delete_content(filename.spec_bytes()),
            !r@.acked,
    {
        let name = filename.as_bytes();
        let mut content: Vec<u8> = Vec::new();
        content.push((name.len() % 256) as u8);
        push_bytes(&mut content, name);
        Self { chunk: Chunk::with_content(ChunkType::FileDelete, id, 0, 0, content) }
    }

    pub fn inner(&self) -> (r: &Chunk)
        ensures
            *r == self@,
    {
        &self.chunk
    }

    pub fn inner_mut(&mut self) -> (r: &mut Chunk)
        ensures
            *r == old(self)@,
            final(self)@ == *final(r),
    {
        &mut self.chunk
    }

    /// Gives up the wrapper for the chunk itself.
    pub fn into_inner(self) -> (r: Chunk)
        ensures
            r == self@,
    {
        self.chunk
    }
}

/// The chunk that marks the completion of all transfers.
#[derive(Debug, Clone)]
pub struct Completed {
    chunk: Chunk,
}

impl View for Completed {
    type V = Chunk;

    closed spec fn view(&self) -> Chunk {
        self.chunk
    }
}

impl Completed {
    pub fn new() -> (r: Self)
        ensures
            r@.type_ == ChunkType::Complete,
            r@.id == 0,
            r@.package == 0,
            r@.total_packages == 0,
            r@.content@ == Seq::<u8>::empty(),
            !r@.acked,
    {
        Self { chunk: Chunk::new(ChunkType::Complete, 0, 0, 0) }
    }

    pub fn inner(&self) -> (r: &Chunk)
        ensures
            *r == self@,
    {
        &self.chunk
    }
}

impl Default for Completed {
    fn default() -> (r: Self)
        ensures
            r@.type_ == ChunkType::Complete,
            r@.id == 0,
            r@.package == 0,
            r@.total_packages == 0,
            r@.content@ == Seq::<u8>::empty(),
            !r@.acked,
    {
        Self::new()
    }
}

/// A packet starts with the chunk's type, id, total and package, and holds
/// the content from the ninth byte on; what follows the content is zero.
pub proof fn lemma_packet_layout(chunk: ChunkModel)
    requires
        chunk.content.len() <= MAX_CHUNK_SIZE,
    ensures
        chunk.packet().len() == 60,
        chunk.packet().subrange(0, 2) == le16(chunk.type_.spec_code()),
        chunk.packet().subrange(2, 4) == le16(chunk.id),
        chunk.packet().subrange(4, 6) == le16(chunk.total_packages),
        chunk.packet().subrange(6, 8) == le16(chunk.package),
        chunk.packet().subrange(8, 8 + chunk.content.len() as int) == chunk.content,
        forall|i: int| 8 + chunk.content.len() <= i < 60 ==> chunk.packet()[i] == 0,
{
}

} // verus!
