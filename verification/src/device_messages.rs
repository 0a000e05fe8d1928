//! Notifications that the device sends on the update channel: chunk
//! acknowledgments, errors and log lines.
//!
//! Each notification starts with an identifier of two ASCII characters.
//! Text that the device sends is decoded leniently: bytes that are not valid
//! UTF-8 are replaced, never refused.

use crate::chunks::from_le16;
use crate::text::{
    ascii_bytes, ascii_text, decimal, is_ascii_bytes, lemma_ascii_bytes_decode,
    lemma_ascii_text_bytes, push_decimal, str_equals,
};
use vstd::prelude::*;
use vstd::slice::slice_subrange;
use vstd::string::StringExecFns;
use vstd::utf8::{decode_utf8, is_ascii_chars, valid_utf8};

verus! {

/// The text that lenient decoding makes of a sequence of bytes: the
/// characters of the valid parts, with a replacement character for each
/// invalid part.
pub uninterp spec fn lossy_text(bytes: Seq<u8>) -> Seq<char>;

/// Decodes bytes to text with `String::from_utf8_lossy`.
///
/// Believed of the standard library, as its documentation says: valid UTF-8
/// decodes to the text it encodes, and any other input yields a text that
/// holds the replacement character U+FFFD. The result depends on the bytes
/// alone.
#[verifier::external_body]
fn utf8_lossy(bytes: &[u8]) -> (text: String)
    ensures
        text@ == lossy_text(bytes@),
        valid_utf8(bytes@) ==> text@ == decode_utf8(bytes@),
        !valid_utf8(bytes@) ==> text@.contains('\u{FFFD}'),
{
    String::from_utf8_lossy(bytes).into_owned()
}

/// Whether a text is what lenient decoding makes of the bytes. Of ASCII
/// bytes it makes the text that they spell.
pub open spec fn reads_leniently(text: Seq<char>, bytes: Seq<u8>) -> bool {
    &&& text == lossy_text(bytes)
    &&& is_ascii_bytes(bytes) ==> text == ascii_text(bytes)
}

/// Decodes bytes to text leniently.
fn decode_text(bytes: &[u8]) -> (text: String)
    ensures
        reads_leniently(text@, bytes@),
        valid_utf8(bytes@) ==> text@ == decode_utf8(bytes@),
        !valid_utf8(bytes@) ==> text@.contains('\u{FFFD}'),
{
    let text = utf8_lossy(bytes);
    proof {
        if is_ascii_bytes(bytes@) {
            lemma_ascii_bytes_decode(bytes@);
        }
    }
    text
}

/// The identifier of a chunk acknowledgment: `AK`.
pub open spec fn tag_ack() -> Seq<u8> {
    seq![0x41u8, 0x4Bu8]
}

/// The identifier of an error: `ER`.
pub open spec fn tag_error() -> Seq<u8> {
    seq![0x45u8, 0x52u8]
}

/// The identifier of a debug log line: `LD`.
pub open spec fn tag_log_debug() -> Seq<u8> {
    seq![0x4Cu8, 0x44u8]
}

/// The identifier of an error log line: `LE`.
pub open spec fn tag_log_error() -> Seq<u8> {
    seq![0x4Cu8, 0x45u8]
}

/// Whether the data starts with the given two-byte identifier.
pub open spec fn has_tag(data: Seq<u8>, tag: Seq<u8>) -> bool {
    data.len() >= 2 && data.subrange(0, 2) == tag
}

/// The identifier text of a notification: empty if the data is too short
/// to hold one.
pub open spec fn identifier_text(data: Seq<u8>) -> Seq<char> {
    if data.len() < 2 {
        Seq::empty()
    } else {
        lossy_text(data.subrange(0, 2))
    }
}

/// Decodes the identifier of a notification. The text equals an ASCII tag
/// exactly if the first two bytes are that tag's characters.
fn read_identifier(data: &[u8]) -> (id: String)
    requires
        data@.len() >= 2,
    ensures
        id@ == identifier_text(data@),
        reads_leniently(id@, data@.subrange(0, 2)),
        forall|tag: Seq<char>|
            is_ascii_chars(tag) ==> ((id@ == tag) <==> data@.subrange(0, 2) == #[trigger] ascii_bytes(
                tag,
            )),
{
    let prefix = slice_subrange(data, 0, 2);
    let id = decode_text(prefix);
    proof {
        assert forall|tag: Seq<char>| is_ascii_chars(tag) implies ((id@ == tag) <==> prefix@
            == #[trigger] ascii_bytes(tag)) by {
            lemma_ascii_text_bytes(prefix@, tag);
            if id@ == tag && !valid_utf8(prefix@) {
                let i = choose|i: int| 0 <= i < id@.len() && id@[i] == '\u{FFFD}';
                assert(tag[i] == '\u{FFFD}');
            }
        }
    }
    id
}

/// The facts about the four identifiers that the decoders rest on: each is
/// ASCII text, spelled by its tag bytes.
proof fn lemma_tags()
    ensures
        is_ascii_chars("AK"@) && ascii_bytes("AK"@) == tag_ack(),
        is_ascii_chars("ER"@) && ascii_bytes("ER"@) == tag_error(),
        is_ascii_chars("LD"@) && ascii_bytes("LD"@) == tag_log_debug(),
        is_ascii_chars("LE"@) && ascii_bytes("LE"@) == tag_log_error(),
{
    reveal_strlit("AK");
    reveal_strlit("ER");
    reveal_strlit("LD");
    reveal_strlit("LE");
}

/// An error that the device reports during an update.
#[derive(Debug, Clone)]
pub struct UpdateError {
    pub identifier: String,
    pub info: String,
}

/// Number of bytes of an error's text: the length byte, but at least 33.
pub open spec fn error_length(length_byte: u8) -> nat {
    if length_byte < 33 {
        33
    } else {
        length_byte as nat
    }
}

/// Where the text of an error ends: after the announced length, or at the
/// end of the data.
pub open spec fn error_end(data: Seq<u8>) -> int
    recommends
        data.len() > 3,
{
    if 3 + error_length(data[2]) < data.len() {
        (3 + error_length(data[2])) as int
    } else {
        data.len() as int
    }
}

/// The text of an error notification.
pub open spec fn error_info_of(data: Seq<u8>) -> Seq<char> {
    if has_tag(data, tag_error()) && data.len() > 3 {
        lossy_text(data.subrange(3, error_end(data)))
    } else {
        Seq::empty()
    }
}

impl UpdateError {
    /// Whether the error carries the identifier `ER`.
    pub open spec fn spec_is_valid(&self) -> bool {
        self.identifier@ == "ER"@
    }

    /// What the data of a notification decodes to as an error.
    pub open spec fn decoded_from(&self, data: Seq<u8>) -> bool {
        &&& self.identifier@ == identifier_text(data)
        &&& data.len() >= 2 ==> reads_leniently(self.identifier@, data.subrange(0, 2))
        &&& self.spec_is_valid() == has_tag(data, tag_error())
        &&& self.info@ == error_info_of(data)
        &&& has_tag(data, tag_error()) && data.len() > 3 ==> reads_leniently(
            self.info@,
            data.subrange(3, error_end(data)),
        )
    }

    /// The text of the error.
    pub open spec fn text(&self) -> Seq<char> {
        if self.spec_is_valid() {
            "Error: "@ + self.info@
        } else {
            "Invalid Request"@
        }
    }

    /// Decodes an error notification. Data that is too short or carries
    /// another identifier gives an error without text that is not valid.
    pub fn from_bytes(data: &[u8]) -> (r: Self)
        ensures
            r.decoded_from(data@),
    {
        if data.len() < 2 {
            proof {
                reveal_strlit("ER");
                assert("ER"@.len() == 2);
            }
            return Self { identifier: String::new(), info: String::new() };
        }
        let identifier = read_identifier(data);
        proof {
            lemma_tags();
        }
        if !Self::is_valid_identifier(identifier.as_str()) {
            return Self { identifier, info: String::new() };
        }
        let info = if data.len() > 3 {
            let length: usize = if data[2] < 33 {
                33
            } else {
                data[2] as usize
            };
            let end = if 3 + length < data.len() {
                3 + length
            } else {
                data.len()
            };
            decode_text(slice_subrange(data, 3, end))
        } else {
            String::new()
        };
        Self { identifier, info }
    }

    #[verifier::when_used_as_spec(spec_is_valid)]
    pub fn is_valid(&self) -> (b: bool)
        ensures
            b == self.spec_is_valid(),
    {
        Self::is_valid_identifier(self.identifier.as_str())
    }

    fn is_valid_identifier(id: &str) -> (b: bool)
        ensures
            b == (id@ == "ER"@),
    {
        str_equals(id, "ER")
    }

    /// The display form of the error.
    pub fn to_string(&self) -> (s: String)
        ensures
            s@ == self.text(),
    {
        if self.is_valid() {
            let mut s = String::from_str("Error: ");
            s.append(self.info.as_str());
            s
        } else {
            String::from_str("Invalid Request")
        }
    }
}

/// The device's acknowledgment of one chunk.
#[derive(Debug, Clone)]
pub struct ChunkAck {
    pub identifier: String,
    pub id: u16,
    pub package: u16,
    pub type_: u8,
}

/// The transfer id that an acknowledgment names.
pub open spec fn ack_id_of(data: Seq<u8>) -> u16 {
    if has_tag(data, tag_ack()) && data.len() >= 4 {
        from_le16(data[2], data[3])
    } else {
        0
    }
}

/// The package that an acknowledgment names.
pub open spec fn ack_package_of(data: Seq<u8>) -> u16 {
    if has_tag(data, tag_ack()) && data.len() >= 6 {
        from_le16(data[4], data[5])
    } else {
        0
    }
}

/// The chunk type that an acknowledgment names.
pub open spec fn ack_type_of(data: Seq<u8>) -> u8 {
    if has_tag(data, tag_ack()) && data.len() >= 7 {
        data[6]
    } else {
        0
    }
}

impl ChunkAck {
    /// Whether the acknowledgment carries the identifier `AK`.
    pub open spec fn spec_is_valid(&self) -> bool {
        self.identifier@ == "AK"@
    }

    /// What the data of a notification decodes to as an acknowledgment:
    /// after the identifier come the transfer id and the package, both
    /// little-endian, and the chunk type. A field that the data is too
    /// short to hold is zero.
    pub open spec fn decoded_from(&self, data: Seq<u8>) -> bool {
        &&& self.identifier@ == identifier_text(data)
        &&& data.len() >= 2 ==> reads_leniently(self.identifier@, data.subrange(0, 2))
        &&& self.spec_is_valid() == has_tag(data, tag_ack())
        &&& self.id == ack_id_of(data)
        &&& self.package == ack_package_of(data)
        &&& self.type_ == ack_type_of(data)
    }

    /// The text of the acknowledgment.
    pub open spec fn text(&self) -> Seq<char> {
        if self.spec_is_valid() {
            "File: "@ + decimal(self.id as nat) + ", Type: "@ + decimal(self.type_ as nat)
                + ", Package: "@ + decimal(self.package as nat)
        } else {
            "Invalid Request"@
        }
    }

    /// Decodes an acknowledgment. Data that is too short or carries another
    /// identifier gives an acknowledgment of zeros that is not valid.
    pub fn from_bytes(data: &[u8]) -> (r: Self)
        ensures
            r.decoded_from(data@),
    {
        if data.len() < 2 {
            proof {
                reveal_strlit("AK");
                assert("AK"@.len() == 2);
            }
            return Self { identifier: String::new(), id: 0, package: 0, type_: 0 };
        }
        let identifier = read_identifier(data);
        proof {
            lemma_tags();
        }
        if !Self::is_valid_identifier(identifier.as_str()) {
            return Self { identifier, id: 0, package: 0, type_: 0 };
        }
        let id: u16 = if data.len() >= 4 {
            read_le16(data[2], data[3])
        } else {
            0
        };
        let package: u16 = if data.len() >= 6 {
            read_le16(data[4], data[5])
        } else {
            0
        };
        let type_: u8 = if data.len() >= 7 {
            data[6]
        } else {
            0
        };
        Self { identifier, id, package, type_ }
    }

    #[verifier::when_used_as_spec(spec_is_valid)]
    pub fn is_valid(&self) -> (b: bool)
        ensures
            b == self.spec_is_valid(),
    {
        Self::is_valid_identifier(self.identifier.as_str())
    }

    fn is_valid_identifier(id: &str) -> (b: bool)
        ensures
            b == (id@ == "AK"@),
    {
        str_equals(id, "AK")
    }

    /// The display form of the acknowledgment.
    pub fn to_string(&self) -> (s: String)
        ensures
            s@ == self.text(),
    {
        if self.is_valid() {
            let mut s = String::from_str("File: ");
            push_decimal(&mut s, self.id as u64);
            s.append(", Type: ");
            push_decimal(&mut s, self.type_ as u64);
            s.append(", Package: ");
            push_decimal(&mut s, self.package as u64);
            s
        } else {
            String::from_str("Invalid Request")
        }
    }
}

/// Reads a `u16` from two bytes, least significant first.
fn read_le16(low: u8, high: u8) -> (x: u16)
    ensures
        x == from_le16(low, high),
{
    low as u16 + 256 * (high as u16)
}

/// How serious a log line is.
#[derive(Debug, Clone, Copy, PartialEq, Eq, Structural)]
pub enum LogLevel {
    Debug,
    Error,
}

impl LogLevel {
    /// The name of the level in lower case.
    pub open spec fn name(self) -> Seq<char> {
        match self {
            LogLevel::Debug => "debug"@,
            LogLevel::Error => "error"@,
        }
    }

    fn name_str(self) -> (s: &'static str)
        ensures
            s@ == self.name(),
    {
        match self {
            LogLevel::Debug => "debug",
            LogLevel::Error => "error",
        }
    }
}

/// A log line that the device sends.
#[derive(Debug, Clone)]
pub struct LogMessage {
    pub identifier: String,
    pub level: LogLevel,
    pub message: String,
}

/// The position of the first zero byte at or after `from`, or the length of
/// the data if there is none.
pub open spec fn first_nul(data: Seq<u8>, from: int) -> int
    decreases data.len() - from,
{
    if from < 0 || from >= data.len() {
        data.len() as int
    } else if data[from] == 0 {
        from
    } else {
        first_nul(data, from + 1)
    }
}

/// The first zero byte is where `first_nul` says, and none comes before it.
pub proof fn lemma_first_nul(data: Seq<u8>, from: int)
    requires
        0 <= from <= data.len(),
    ensures
        from <= first_nul(data, from) <= data.len(),
        first_nul(data, from) < data.len() ==> data[first_nul(data, from)] == 0,
        forall|i: int| from <= i < first_nul(data, from) ==> data[i] != 0,
    decreases data.len() - from,
{
    if from < data.len() && data[from] != 0 {
        lemma_first_nul(data, from + 1);
    }
}

impl LogMessage {
    /// Whether the log line carries the identifier `LD` or `LE`.
    pub open spec fn spec_is_valid(&self) -> bool {
        self.identifier@ == "LE"@ || self.identifier@ == "LD"@
    }

    /// What the data of a notification decodes to as a log line: the text
    /// after the identifier, up to the first zero byte or the end of the
    /// data.
    pub open spec fn decoded_from(&self, data: Seq<u8>) -> bool {
        let valid = has_tag(data, tag_log_debug()) || has_tag(data, tag_log_error());
        &&& self.identifier@ == identifier_text(data)
        &&& data.len() >= 2 ==> reads_leniently(self.identifier@, data.subrange(0, 2))
        &&& self.spec_is_valid() == valid
        &&& self.level == if has_tag(data, tag_log_error()) {
            LogLevel::Error
        } else {
            LogLevel::Debug
        }
        &&& self.message@ == if valid {
            lossy_text(data.subrange(2, first_nul(data, 2)))
        } else {
            Seq::empty()
        }
        &&& valid ==> reads_leniently(self.message@, data.subrange(2, first_nul(data, 2)))
    }

    /// The text of the log line.
    pub open spec fn text(&self) -> Seq<char> {
        if self.spec_is_valid() {
            self.level.name() + ": "@ + self.message@
        } else {
            "Invalid Request"@
        }
    }

    /// Decodes a log line. Data that is too short or carries another
    /// identifier gives an empty debug line that is not valid.
    pub fn from_bytes(data: &[u8]) -> (r: Self)
        ensures
            r.decoded_from(data@),
    {
        if data.len() < 2 {
            proof {
                reveal_strlit("LE");
                reveal_strlit("LD");
            }
            return Self {
                identifier: String::new(),
                level: LogLevel::Debug,
                message: String::new(),
            };
        }
        let identifier = read_identifier(data);
        proof {
            lemma_tags();
        }
        if !Self::is_valid_identifier(identifier.as_str()) {
            return Self { identifier, level: LogLevel::Debug, message: String::new() };
        }
        let level = if str_equals(identifier.as_str(), "LD") {
            LogLevel::Debug
        } else {
            LogLevel::Error
        };
        let mut end_pos: usize = 2;
        while end_pos < data.len() && data[end_pos] != 0
            invariant
                2 <= end_pos <= data@.len(),
                first_nul(data@, 2) == first_nul(data@, end_pos as int),
            decreases data@.len() - end_pos,
        {
            end_pos += 1;
        }
        let message = decode_text(slice_subrange(data, 2, end_pos));
        Self { identifier, level, message }
    }

    #[verifier::when_used_as_spec(spec_is_valid)]
    pub fn is_valid(&self) -> (b: bool)
        ensures
            b == self.spec_is_valid(),
    {
        Self::is_valid_identifier(self.identifier.as_str())
    }

    fn is_valid_identifier(id: &str) -> (b: bool)
        ensures
            b == (id@ == "LE"@ || id@ == "LD"@),
    {
        str_equals(id, "LE") || str_equals(id, "LD")
    }

    /// The display form of the log line.
    pub fn to_string(&self) -> (s: String)
        ensures
            s@ == self.text(),
    {
        if self.is_valid() {
            let mut s = String::from_str(self.level.name_str());
            s.append(": ");
            s.append(self.message.as_str());
            s
        } else {
            String::from_str("Invalid Request")
        }
    }
}

/// A notification of the update channel, decoded.
#[derive(Debug, Clone)]
pub enum HidUpdateMessage {
    ChunkAck(ChunkAck),
    Error(UpdateError),
    Log(LogMessage),
}

impl HidUpdateMessage {
    /// What the data of a notification decodes to.
    pub open spec fn decoded_from(&self, data: Seq<u8>) -> bool {
        match self {
            HidUpdateMessage::ChunkAck(ack) => has_tag(data, tag_ack()) && ack.decoded_from(data),
            HidUpdateMessage::Error(error) => has_tag(data, tag_error()) && error.decoded_from(
                data,
            ),
            HidUpdateMessage::Log(log) => (has_tag(data, tag_log_debug()) || has_tag(
                data,
                tag_log_error(),
            )) && log.decoded_from(data),
        }
    }
}

/// Whether the data starts with one of the four identifiers.
pub open spec fn has_known_tag(data: Seq<u8>) -> bool {
    has_tag(data, tag_ack()) || has_tag(data, tag_error()) || has_tag(data, tag_log_debug())
        || has_tag(data, tag_log_error())
}

/// Decodes a notification of the update channel by its identifier. Data
/// that is too short or carries an unknown identifier decodes to nothing.
pub fn parse_hid_update_message(data: &[u8]) -> (r: Option<HidUpdateMessage>)
    ensures
        r is Some <==> has_known_tag(data@),
        r is Some ==> r->Some_0.decoded_from(data@),
{
    if data.len() < 2 {
        return None;
    }
    let identifier = read_identifier(data);
    proof {
        lemma_tags();
    }
    if str_equals(identifier.as_str(), "AK") {
        Some(HidUpdateMessage::ChunkAck(ChunkAck::from_bytes(data)))
    } else if str_equals(identifier.as_str(), "ER") {
        Some(HidUpdateMessage::Error(UpdateError::from_bytes(data)))
    } else if str_equals(identifier.as_str(), "LD") || str_equals(identifier.as_str(), "LE") {
        Some(HidUpdateMessage::Log(LogMessage::from_bytes(data)))
    } else {
        None
    }
}

} // verus!
