//! The transfer session of one file of a firmware update.
//!
//! A session holds the chunks of one file, or the single chunk that deletes
//! one, and tracks which of them the device has acknowledged. The next chunk
//! to send is always the first that is not acknowledged: a lost
//! acknowledgment makes the same chunk go out again.

use crate::chunks::{
    chunk_models, file_delete_content, file_start_content, filled, push_filled, Chunk, ChunkModel,
    ChunkType, FileChunk, FileDelete, FileStart,
};
use crate::constants::MAX_CHUNK_SIZE;
use crate::device_messages::ChunkAck;
use crate::text::{
    ends_with, first_index, lemma_first_index, str_ends_with, str_trim_end, trim_end,
};
use vstd::prelude::*;
use vstd::slice::{slice_subrange, slice_to_vec};
use vstd::string::{StringExecFns, StringSliceAdditionalSpecFns};
use vstd::utf8::encode_utf8;

verus! {

/// Why an update failed.
#[derive(Debug, Clone)]
pub enum UpdateError {
    NotConnected,
    /// A file could not be read; the text is the system's message.
    IoError(String),
    /// The device reported an error; the text is the device's.
    DeviceError(String),
    /// A report could not be written; the text is the transport's message.
    WriteFailed(String),
    FileError(String),
}

impl UpdateError {
    /// The text of the error.
    pub open spec fn text(&self) -> Seq<char> {
        match self {
            UpdateError::NotConnected => "Device not connected"@,
            UpdateError::IoError(m) => "IO error: "@ + m@,
            UpdateError::DeviceError(m) => "Device error: "@ + m@,
            UpdateError::WriteFailed(m) => "Write failed: "@ + m@,
            UpdateError::FileError(m) => "File error: "@ + m@,
        }
    }

    /// The display form of the error.
    pub fn to_string(&self) -> (s: String)
        ensures
            s@ == self.text(),
    {
        match self {
            UpdateError::NotConnected => String::from_str("Device not connected"),
            UpdateError::IoError(m) => String::from_str("IO error: ").concat(m.as_str()),
            UpdateError::DeviceError(m) => String::from_str("Device error: ").concat(m.as_str()),
            UpdateError::WriteFailed(m) => String::from_str("Write failed: ").concat(m.as_str()),
            UpdateError::FileError(m) => String::from_str("File error: ").concat(m.as_str()),
        }
    }
}

/// Whether a file name asks for the file's deletion on the device.
pub open spec fn is_delete_marker(filename: Seq<char>) -> bool {
    ends_with(filename, ".delete"@)
}

/// The name of the file that a delete marker addresses.
pub open spec fn delete_target(filename: Seq<char>) -> Seq<char> {
    trim_end(filename, ".delete"@)
}

/// Number of space bytes that bring a file's size to a multiple of the
/// chunk size.
pub open spec fn pad_len(size: nat) -> nat {
    if size % 52 == 0 {
        0
    } else {
        (52 - size % 52) as nat
    }
}

/// The content of a file, padded with spaces to a multiple of the chunk
/// size.
pub open spec fn padded(content: Seq<u8>) -> Seq<u8> {
    content + filled(pad_len(content.len()), 0x20)
}

/// Number of data chunks of a file: its size divided by the chunk size,
/// rounded up.
pub open spec fn total_packages(size: nat) -> nat {
    (size + 51) / 52
}

/// A number as a 16-bit field holds it: its lowest 16 bits.
pub open spec fn wrap16(n: int) -> u16 {
    (n % 65536) as u16
}

/// The chunk that starts a file of the given size.
pub open spec fn start_chunk(id: u16, name: Seq<u8>, size: nat) -> ChunkModel {
    ChunkModel {
        type_: ChunkType::FileStart,
        id,
        package: 0,
        total_packages: wrap16(total_packages(size) as int),
        content: file_start_content(name, wrap16(size as int)),
        acked: false,
    }
}

/// The data chunk with index `k` of a file whose padded content is given.
pub open spec fn data_chunk(id: u16, k: int, size: nat, padded: Seq<u8>) -> ChunkModel {
    ChunkModel {
        type_: ChunkType::FileChunk,
        id,
        package: wrap16(k),
        total_packages: wrap16(total_packages(size) as int),
        content: padded.subrange(52 * k, 52 * k + 52),
        acked: false,
    }
}

/// The chunk that ends a file of the given size.
pub open spec fn end_chunk(id: u16, size: nat) -> ChunkModel {
    ChunkModel {
        type_: ChunkType::FileEnd,
        id,
        package: 0,
        total_packages: wrap16(total_packages(size) as int),
        content: Seq::empty(),
        acked: false,
    }
}

/// The chunk that deletes the file of the given name.
pub open spec fn delete_chunk(id: u16, name: Seq<u8>) -> ChunkModel {
    ChunkModel {
        type_: ChunkType::FileDelete,
        id,
        package: 0,
        total_packages: 0,
        content: file_delete_content(name),
        acked: false,
    }
}

/// The data chunks of a file, in order.
pub open spec fn data_chunks(id: u16, size: nat, padded: Seq<u8>, count: nat) -> Seq<ChunkModel> {
    Seq::new(count, |k: int| data_chunk(id, k, size, padded))
}

/// The chunks of a file: the start, one chunk for each slice of the padded
/// content, the end.
pub open spec fn file_chunks(id: u16, name: Seq<u8>, size: nat, padded: Seq<u8>) -> Seq<
    ChunkModel,
> {
    seq![start_chunk(id, name, size)] + data_chunks(id, size, padded, total_packages(size)) + seq![
        end_chunk(id, size),
    ]
}

/// What a transfer session holds, as plain values.
pub struct TransferModel {
    pub id: u16,
    pub filename: Seq<char>,
    pub content: Seq<u8>,
    pub size: nat,
    pub chunks: Seq<ChunkModel>,
}

/// The session that is made for a file name and the file's content. A name
/// that ends in `.delete` gives a session of one chunk, which deletes the
/// file of the name without that ending; the content is not looked at.
pub open spec fn new_transfer(id: u16, filename: Seq<char>, content: Seq<u8>) -> TransferModel {
    if is_delete_marker(filename) {
        TransferModel {
            id,
            filename: delete_target(filename),
            content: Seq::empty(),
            size: 0,
            chunks: seq![delete_chunk(id, encode_utf8(delete_target(filename)))],
        }
    } else {
        TransferModel {
            id,
            filename,
            content: padded(content),
            size: content.len(),
            chunks: file_chunks(id, encode_utf8(filename), content.len(), padded(content)),
        }
    }
}

/// Whether an acknowledgment of the given type and package is for the chunk.
pub open spec fn ack_matches(chunk: ChunkModel, type_: u8, package: u16) -> bool {
    chunk.type_.spec_code() == type_ && chunk.package == package
}

/// The chunks after an acknowledgment has been applied to a session with
/// the given id. An acknowledgment for another id changes nothing; else the
/// first chunk that it matches is marked, and no other.
pub open spec fn acknowledged(
    chunks: Seq<ChunkModel>,
    id: u16,
    ack_id: u16,
    ack_type: u8,
    ack_package: u16,
) -> Seq<ChunkModel> {
    let k = first_index(chunks, |c: ChunkModel| ack_matches(c, ack_type, ack_package), 0);
    if ack_id == id && k < chunks.len() {
        chunks.update(k, ChunkModel { acked: true, ..chunks[k] })
    } else {
        chunks
    }
}

/// The position of the first chunk that is not acknowledged, or the number
/// of chunks if all are.
pub open spec fn next_unacked(chunks: Seq<ChunkModel>) -> int {
    first_index(chunks, |c: ChunkModel| !c.acked, 0)
}

/// Whether every chunk is acknowledged.
pub open spec fn all_acked(chunks: Seq<ChunkModel>) -> bool {
    forall|i: int| 0 <= i < chunks.len() ==> (#[trigger] chunks[i]).acked
}

/// The padded content has the size of the data chunks together.
pub proof fn lemma_padded_len(size: nat)
    ensures
        size + pad_len(size) == 52 * total_packages(size),
        size <= 52 * total_packages(size) < size + 52,
{
}

/// A file to be transferred to the device, as its chunks.
pub struct TransferFile {
    pub id: u16,
    pub filename: String,
    pub content: Vec<u8>,
    pub size: usize,
    chunks: Vec<Chunk>,
}

impl View for TransferFile {
    type V = TransferModel;

    closed spec fn view(&self) -> TransferModel {
        TransferModel {
            id: self.id,
            filename: self.filename@,
            content: self.content@,
            size: self.size as nat,
            chunks: chunk_models(self.chunks@),
        }
    }
}

impl TransferFile {
    /// Whether the file's content is needed to build its session: it is
    /// not for a delete marker.
    pub fn needs_content(filename: &str) -> (b: bool)
        ensures
            b == !is_delete_marker(filename@),
    {
        !str_ends_with(filename, ".delete")
    }

    /// Builds the session of a file from its name and its content.
    pub fn new(id: u16, filename: &str, content: Vec<u8>) -> (r: Self)
        ensures
            r@ == new_transfer(id, filename@, content@),
    {
        if str_ends_with(filename, ".delete") {
            let actual_filename = str_trim_end(filename, ".delete");
            let chunk = FileDelete::new(id, actual_filename.as_str()).into_inner();
            let mut chunks: Vec<Chunk> = Vec::new();
            chunks.push(chunk);
            let r = Self { id, filename: actual_filename, content: Vec::new(), size: 0, chunks };
            assert(r@.chunks =~= seq![delete_chunk(id, encode_utf8(delete_target(filename@)))]);
            return r;
        }
        let size = content.len();
        let mut padded_content = content;
        let rest = size % MAX_CHUNK_SIZE;
        let padding = if rest == 0 {
            0
        } else {
            MAX_CHUNK_SIZE - rest
        };
        push_filled(&mut padded_content, padding, 0x20);
        let mut file = Self {
            id,
            filename: String::from_str(filename),
            content: padded_content,
            size,
            chunks: Vec::new(),
        };
        file.make_chunks();
        file
    }

    /// Fills the session with the chunks of its content.
    fn make_chunks(&mut self)
        requires
            old(self).chunks@.len() == 0,
            old(self).content@.len() == old(self).size + pad_len(old(self).size as nat),
        ensures
            final(self).id == old(self).id,
            final(self).filename == old(self).filename,
            final(self).content == old(self).content,
            final(self).size == old(self).size,
            chunk_models(final(self).chunks@) == file_chunks(
                old(self).id,
                encode_utf8(old(self).filename@),
                old(self).size as nat,
                old(self).content@,
            ),
    {
        let total = self.calculate_total_packages();
        let total16 = (total % 65536) as u16;
        let ghost name = encode_utf8(self.filename@);
        let ghost size = self.size as nat;
        let ghost padded = self.content@;
        proof {
            lemma_padded_len(size);
        }
        self.chunks.push(
            FileStart::new(
                self.id,
                0,
                total16,
                self.filename.as_str(),
                (self.size % 65536) as u16,
            ).into_inner(),
        );
        let mut k: usize = 0;
        while k < total
            invariant
                k <= total,
                total == total_packages(size),
                total16 == wrap16(total as int),
                size == self.size,
                padded == self.content@,
                padded.len() == 52 * total,
                name == encode_utf8(self.filename@),
                self.id == old(self).id,
                self.filename == old(self).filename,
                self.content == old(self).content,
                self.size == old(self).size,
                chunk_models(self.chunks@) == seq![start_chunk(self.id, name, size)] + data_chunks(
                    self.id,
                    size,
                    padded,
                    k as nat,
                ),
            decreases total - k,
        {
            let len = self.content.len();
            assert(52 * k + 52 <= len);
            let ghost before = chunk_models(self.chunks@);
            let start = k * MAX_CHUNK_SIZE;
            let chunk_data = slice_to_vec(
                slice_subrange(self.content.as_slice(), start, start + MAX_CHUNK_SIZE),
            );
            self.chunks.push(
                FileChunk::new(self.id, (k % 65536) as u16, total16, chunk_data).into_inner(),
            );
            assert(chunk_models(self.chunks@) =~= before.push(
                data_chunk(self.id, k as int, size, padded),
            ));
            k += 1;
        }
        self.chunks.push(Chunk::new(ChunkType::FileEnd, self.id, 0, total16));
    }

    /// Number of data chunks: the size divided by the chunk size, rounded
    /// up.
    fn calculate_total_packages(&self) -> (n: usize)
        ensures
            n == total_packages(self.size as nat),
    {
        let full = self.size / MAX_CHUNK_SIZE;
        if self.size % MAX_CHUNK_SIZE == 0 {
            full
        } else {
            full + 1
        }
    }

    /// The position of the first chunk that is not acknowledged.
    fn next_index(&self) -> (k: usize)
        ensures
            k == next_unacked(self@.chunks),
            k <= self.chunks@.len(),
    {
        let ghost models = chunk_models(self.chunks@);
        let ghost p = |c: ChunkModel| !c.acked;
        let mut k: usize = 0;
        while k < self.chunks.len() && self.chunks[k].is_acked()
            invariant
                k <= self.chunks@.len(),
                models == chunk_models(self.chunks@),
                p == |c: ChunkModel| !c.acked,
                first_index(models, p, 0) == first_index(models, p, k as int),
            decreases self.chunks@.len() - k,
        {
            k += 1;
        }
        k
    }

    /// Gets the next chunk that has not been acknowledged: the first one in
    /// the session's order, or none if the session is complete.
    pub fn get_next_chunk(&self) -> (r: Option<&Chunk>)
        ensures
            match r {
                Some(chunk) => next_unacked(self@.chunks) < self@.chunks.len() && chunk@
                    == self@.chunks[next_unacked(self@.chunks)],
                None => next_unacked(self@.chunks) == self@.chunks.len(),
            },
    {
        let k = self.next_index();
        if k < self.chunks.len() {
            Some(&self.chunks[k])
        } else {
            None
        }
    }

    /// Gets the next chunk that has not been acknowledged, for changing
    /// it in place.
    pub fn get_next_chunk_mut(&mut self) -> (r: Option<&mut Chunk>)
        ensures
            match r {
                Some(chunk) => {
                    let k = next_unacked(old(self)@.chunks);
                    &&& k < old(self)@.chunks.len()
                    &&& (*chunk)@ == old(self)@.chunks[k]
                    &&& final(self)@ == (TransferModel {
                        chunks: old(self)@.chunks.update(k, (*final(chunk))@),
                        ..old(self)@
                    })
                },
                None => next_unacked(old(self)@.chunks) == old(self)@.chunks.len() && final(self)@
                    == old(self)@,
            },
    {
        let k = self.next_index();
        if k < self.chunks.len() {
            let ghost models = chunk_models(self.chunks@);
            let chunk = &mut self.chunks[k];
            proof {
                assert(chunk_models(old(self).chunks@.update(k as int, *final(chunk)))
                    =~= models.update(k as int, (*final(chunk))@));
            }
            Some(chunk)
        } else {
            None
        }
    }

    /// Acknowledges a chunk. Nothing happens unless the acknowledgment
    /// carries the session's id; else the first chunk of the acknowledged
    /// type and package is marked.
    pub fn acknowledge_chunk(&mut self, ack: &ChunkAck)
        ensures
            final(self)@ == (TransferModel {
                chunks: acknowledged(
                    old(self)@.chunks,
                    old(self)@.id,
                    ack.id,
                    ack.type_,
                    ack.package,
                ),
                ..old(self)@
            }),
    {
        let ghost models = chunk_models(self.chunks@);
        let ghost p = |c: ChunkModel| ack_matches(c, ack.type_, ack.package);
        if ack.id != self.id {
            return ;
        }
        let mut k: usize = 0;
        while k < self.chunks.len() && !(self.chunks[k].type_.code() == ack.type_ as u16
            && self.chunks[k].package == ack.package)
            invariant
                k <= self.chunks@.len(),
                *self == *old(self),
                models == chunk_models(self.chunks@),
                p == |c: ChunkModel| ack_matches(c, ack.type_, ack.package),
                first_index(models, p, 0) == first_index(models, p, k as int),
            decreases self.chunks@.len() - k,
        {
            k += 1;
        }
        if k < self.chunks.len() {
            self.chunks[k].set_acked(true);
            assert(chunk_models(self.chunks@) =~= models.update(
                k as int,
                ChunkModel { acked: true, ..models[k as int] },
            ));
        }
    }

    /// Checks whether all chunks have been acknowledged.
    pub fn is_complete(&self) -> (b: bool)
        ensures
            b == all_acked(self@.chunks),
    {
        let k = self.next_index();
        proof {
            lemma_first_index(self@.chunks, |c: ChunkModel| !c.acked, 0);
        }
        k == self.chunks.len()
    }

    /// Gets the total number of chunks.
    pub fn total_chunks(&self) -> (n: usize)
        ensures
            n == self@.chunks.len(),
    {
        self.chunks.len()
    }
}

/// The data that the file chunks of a session carry, in order.
pub open spec fn carried_data(chunks: Seq<ChunkModel>) -> Seq<u8>
    decreases chunks.len(),
{
    if chunks.len() == 0 {
        Seq::empty()
    } else {
        carried_data(chunks.drop_last()) + if chunks.last().type_ == ChunkType::FileChunk {
            chunks.last().content
        } else {
            Seq::empty()
        }
    }
}

/// The file size that the content of a start chunk declares: its last two
/// bytes, least significant first.
pub open spec fn declared_size(start_content: Seq<u8>) -> nat
    recommends
        start_content.len() >= 2,
{
    (start_content[start_content.len() - 2] + 256 * start_content[start_content.len()
        - 1]) as nat
}

/// The start chunk and the first `k` data chunks carry the first `52 * k`
/// bytes of the padded content.
proof fn lemma_carried_prefix(id: u16, name: Seq<u8>, size: nat, padded: Seq<u8>, k: nat)
    requires
        52 * k <= padded.len(),
    ensures
        carried_data(seq![start_chunk(id, name, size)] + data_chunks(id, size, padded, k))
            == padded.subrange(0, 52 * (k as int)),
    decreases k,
{
    let chunks = seq![start_chunk(id, name, size)] + data_chunks(id, size, padded, k);
    if k == 0 {
        assert(carried_data(chunks.drop_last()) =~= Seq::<u8>::empty());
    } else {
        let fewer = seq![start_chunk(id, name, size)] + data_chunks(
            id,
            size,
            padded,
            (k - 1) as nat,
        );
        assert(chunks.drop_last() =~= fewer);
        lemma_carried_prefix(id, name, size, padded, (k - 1) as nat);
    }
}

/// A file comes back from its session: the data that the file chunks carry,
/// cut to the file's size, is the file's content. The session records the
/// size, and the start chunk declares it as far as 16 bits hold it.
pub proof fn lemma_transfer_roundtrip(id: u16, filename: Seq<char>, content: Seq<u8>)
    requires
        !is_delete_marker(filename),
    ensures
        new_transfer(id, filename, content).size == content.len(),
        carried_data(new_transfer(id, filename, content).chunks).len() >= content.len(),
        carried_data(new_transfer(id, filename, content).chunks).subrange(
            0,
            content.len() as int,
        ) == content,
        content.len() < 65536 ==> declared_size(
            new_transfer(id, filename, content).chunks[0].content,
        ) == content.len(),
{
    let name = encode_utf8(filename);
    let size = content.len();
    let total = total_packages(size);
    let chunks = new_transfer(id, filename, content).chunks;
    let body = seq![start_chunk(id, name, size)] + data_chunks(id, size, padded(content), total);
    lemma_padded_len(size);
    lemma_carried_prefix(id, name, size, padded(content), total);
    assert(chunks.drop_last() =~= body);
}

/// Every chunk of a file records the number of its data chunks, which is
/// the file's size divided by 52 and rounded up, as far as 16 bits hold it.
pub proof fn lemma_total_packages_recorded(
    id: u16,
    filename: Seq<char>,
    content: Seq<u8>,
    i: int,
)
    requires
        !is_delete_marker(filename),
        0 <= i < new_transfer(id, filename, content).chunks.len(),
    ensures
        new_transfer(id, filename, content).chunks.len() == total_packages(content.len()) + 2,
        new_transfer(id, filename, content).chunks[i].total_packages == wrap16(
            total_packages(content.len()) as int,
        ),
        total_packages(content.len()) <= 65535 ==> new_transfer(
            id,
            filename,
            content,
        ).chunks[i].total_packages == (content.len() + 51) / 52,
        content.len() <= 52 * total_packages(content.len()) < content.len() + 52,
{
}

/// The chunks of a file stand in the order start, data, end, and each data
/// chunk carries its position as its package.
pub proof fn lemma_chunk_order(id: u16, filename: Seq<char>, content: Seq<u8>, i: int)
    requires
        !is_delete_marker(filename),
        0 <= i < new_transfer(id, filename, content).chunks.len(),
    ensures
        ({
            let chunks = new_transfer(id, filename, content).chunks;
            let total = total_packages(content.len());
            &&& chunks[i].id == id
            &&& !chunks[i].acked
            &&& chunks[i].content.len() <= 52 || i == 0
            &&& i == 0 <==> chunks[i].type_ == ChunkType::FileStart
            &&& 1 <= i <= total <==> chunks[i].type_ == ChunkType::FileChunk
            &&& i == total + 1 <==> chunks[i].type_ == ChunkType::FileEnd
            &&& 1 <= i <= total ==> chunks[i].package == wrap16(i - 1) && chunks[i].content.len()
                == 52
        }),
{
    lemma_padded_len(content.len());
}

/// With a file name of at most 48 bytes every chunk of a file travels in a
/// packet of exactly 60 bytes; a delete marker may name a file of up to 51
/// bytes.
pub proof fn lemma_session_packets_are_full(
    id: u16,
    filename: Seq<char>,
    content: Seq<u8>,
    i: int,
)
    requires
        0 <= i < new_transfer(id, filename, content).chunks.len(),
        if is_delete_marker(filename) {
            encode_utf8(delete_target(filename)).len() <= 51
        } else {
            encode_utf8(filename).len() <= 48
        },
    ensures
        new_transfer(id, filename, content).chunks[i].content.len() <= 52,
        new_transfer(id, filename, content).chunks[i].packet().len() == 60,
{
    lemma_padded_len(content.len());
}

/// An acknowledgment that carries another id than the session's leaves
/// every chunk as it was.
pub proof fn lemma_foreign_ack_ignored(
    chunks: Seq<ChunkModel>,
    id: u16,
    ack_id: u16,
    ack_type: u8,
    ack_package: u16,
)
    requires
        ack_id != id,
    ensures
        acknowledged(chunks, id, ack_id, ack_type, ack_package) == chunks,
{
}

/// An acknowledgment changes at most the flag of one chunk, and only from
/// unacknowledged to acknowledged: chunks that were acknowledged stay so.
pub proof fn lemma_ack_only_marks(
    chunks: Seq<ChunkModel>,
    id: u16,
    ack_id: u16,
    ack_type: u8,
    ack_package: u16,
    i: int,
)
    requires
        0 <= i < chunks.len(),
    ensures
        ({
            let after = acknowledged(chunks, id, ack_id, ack_type, ack_package);
            &&& after.len() == chunks.len()
            &&& after[i] == (ChunkModel { acked: after[i].acked, ..chunks[i] })
            &&& chunks[i].acked ==> after[i].acked
            &&& after[i].acked && !chunks[i].acked ==> ack_id == id && ack_matches(
                chunks[i],
                ack_type,
                ack_package,
            )
        }),
{
    lemma_first_index(chunks, |c: ChunkModel| ack_matches(c, ack_type, ack_package), 0);
}

/// Whether the chunks are those of the given session, acknowledged or not.
pub open spec fn same_chunks(chunks: Seq<ChunkModel>, session: Seq<ChunkModel>) -> bool {
    chunks.len() == session.len() && forall|i: int|
        0 <= i < chunks.len() ==> #[trigger] chunks[i] == (ChunkModel {
            acked: chunks[i].acked,
            ..session[i]
        })
}

/// A session stays the session of its file: acknowledgments change which
/// chunks are acknowledged and nothing else, so the chunks keep their order
/// of start, data and end, and what they carry.
pub proof fn lemma_ack_keeps_session(
    chunks: Seq<ChunkModel>,
    session: Seq<ChunkModel>,
    id: u16,
    ack_id: u16,
    ack_type: u8,
    ack_package: u16,
)
    requires
        same_chunks(chunks, session),
    ensures
        same_chunks(acknowledged(chunks, id, ack_id, ack_type, ack_package), session),
        all_acked(chunks) ==> all_acked(acknowledged(chunks, id, ack_id, ack_type, ack_package)),
{
    let after = acknowledged(chunks, id, ack_id, ack_type, ack_package);
    lemma_first_index(chunks, |c: ChunkModel| ack_matches(c, ack_type, ack_package), 0);
    assert forall|i: int| 0 <= i < after.len() implies #[trigger] after[i] == (ChunkModel {
        acked: after[i].acked,
        ..session[i]
    }) by {
        assert(chunks[i] == (ChunkModel { acked: chunks[i].acked, ..session[i] }));
    }
}

/// The session of a delete marker has one chunk, and one acknowledgment of
/// that chunk completes it.
pub proof fn lemma_delete_session(id: u16, filename: Seq<char>, content: Seq<u8>)
    requires
        is_delete_marker(filename),
    ensures
        ({
            let chunks = new_transfer(id, filename, content).chunks;
            &&& chunks.len() == 1
            &&& chunks[0].type_ == ChunkType::FileDelete
            &&& !all_acked(chunks)
            &&& all_acked(acknowledged(chunks, id, id, 5, 0))
        }),
{
}

/// A session is complete exactly if no chunk is left to send.
pub proof fn lemma_complete_iff_none_left(chunks: Seq<ChunkModel>)
    ensures
        all_acked(chunks) <==> next_unacked(chunks) == chunks.len(),
        next_unacked(chunks) < chunks.len() ==> !chunks[next_unacked(chunks)].acked,
        forall|i: int| 0 <= i < next_unacked(chunks) ==> (#[trigger] chunks[i]).acked,
{
    lemma_first_index(chunks, |c: ChunkModel| !c.acked, 0);
}

} // verus!
