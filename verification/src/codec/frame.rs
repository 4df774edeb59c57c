//! Frames: the header that goes before every payload, and the way back.

use vstd::prelude::*;
use vstd::slice::{slice_subrange, slice_to_vec};
use vstd::utf8::is_ascii_chars;

use crate::codec::digest::{checksum, checksum_of};
use crate::codec::ints::{le_bytes, le_value, push_le, read_le};
use crate::codec::payload::{decode_version, encode_version, parse_version, version_payload};
use crate::error::DecodeError;
use crate::messages::{MessageView, NetworkMessage};
use crate::text::push_char;

verus! {

/// The four bytes that open every frame of the main network.
pub const MAGIC: [u8; 4] = [0xf9, 0xbe, 0xb4, 0xd9];

/// The header: magic, command, payload length, checksum.
pub const HEADER_LEN: usize = 24;

/// The width of the command field.
pub const COMMAND_LEN: usize = 12;

/// No frame is longer than this, header included.
pub const MAX_FRAME_LEN: usize = 5_000_000;

/// No payload is longer than this.
pub const MAX_PAYLOAD_LEN: usize = 4_999_976;

/// The command field of a frame: the name's characters as bytes, then zero
/// bytes up to the field's width.
pub open spec fn command_field(name: Seq<char>) -> Seq<u8> {
    Seq::new(
        COMMAND_LEN as nat,
        |i: int|
            if i < name.len() {
                name[i] as u8
            } else {
                0u8
            },
    )
}

/// The length of `field` without the zero bytes at its end.
pub open spec fn trimmed_len(field: Seq<u8>) -> nat
    decreases field.len(),
{
    if field.len() == 0 {
        0
    } else if field.last() != 0 {
        field.len()
    } else {
        trimmed_len(field.drop_last())
    }
}

/// The name in a command field: its bytes up to the trailing zero bytes, as
/// characters.
pub open spec fn command_name(field: Seq<u8>) -> Seq<char> {
    Seq::new(trimmed_len(field), |i: int| field[i] as char)
}

/// Whether every byte is an ASCII character.
pub open spec fn all_ascii(bytes: Seq<u8>) -> bool {
    forall|i: int| 0 <= i < bytes.len() ==> bytes[i] < 128
}

/// The bytes that follow the header of the message's frame.
pub open spec fn payload_of(message: MessageView) -> Seq<u8> {
    match message {
        MessageView::Version(version) => version_payload(version),
        MessageView::Verack => Seq::empty(),
        MessageView::Other { payload, .. } => payload,
    }
}

/// Whether the message fits a frame: its command fits the command field and
/// is ASCII, and its payload is within the size limit.
pub open spec fn encodable(message: MessageView) -> bool {
    &&& message.command().len() <= COMMAND_LEN
    &&& is_ascii_chars(message.command())
    &&& payload_of(message).len() <= MAX_PAYLOAD_LEN
}

/// The frame of a message: magic, command field, the payload's length in four
/// little-endian bytes, the payload's checksum, and the payload.
pub open spec fn frame(message: MessageView) -> Seq<u8> {
    let payload = payload_of(message);
    MAGIC@ + command_field(message.command()) + le_bytes(payload.len(), 4) + checksum(payload)
        + payload
}

/// The message of a command name and a payload. A `verack` has no payload;
/// a name other than the handshake's two keeps its payload as it is.
pub open spec fn parse_payload(name: Seq<char>, payload: Seq<u8>) -> Result<
    MessageView,
    DecodeError,
> {
    if name == "version"@ {
        match parse_version(payload) {
            Ok(version) => Ok(MessageView::Version(version)),
            Err(e) => Err(e),
        }
    } else if name == "verack"@ {
        if payload.len() == 0 {
            Ok(MessageView::Verack)
        } else {
            Err(DecodeError::TrailingBytes)
        }
    } else {
        Ok(MessageView::Other { command: name, payload })
    }
}

/// The length of the frame that starts with `bytes`, from its header alone.
pub open spec fn parse_frame_len(bytes: Seq<u8>) -> Result<nat, DecodeError> {
    if bytes.len() < HEADER_LEN {
        Err(DecodeError::UnexpectedEof)
    } else if le_value(bytes.subrange(16, 20)) > MAX_PAYLOAD_LEN {
        Err(DecodeError::OversizedFrame)
    } else {
        Ok(HEADER_LEN as nat + le_value(bytes.subrange(16, 20)))
    }
}

/// The message of the frame that `bytes` starts with. The magic is not
/// looked at, and neither is what follows the frame. The checks come in this
/// order: a complete header, an ASCII command, a payload within the size
/// limit and all there, the checksum, and last the payload itself.
pub open spec fn parse_frame(bytes: Seq<u8>) -> Result<MessageView, DecodeError> {
    if bytes.len() < HEADER_LEN {
        Err(DecodeError::UnexpectedEof)
    } else if !all_ascii(bytes.subrange(4, 16)) {
        Err(DecodeError::NonAsciiCommand)
    } else {
        match parse_frame_len(bytes) {
            Err(e) => Err(e),
            Ok(frame_len) => {
                if bytes.len() < frame_len {
                    Err(DecodeError::UnexpectedEof)
                } else {
                    let payload = bytes.subrange(HEADER_LEN as int, frame_len as int);
                    if bytes.subrange(20, 24) != checksum(payload) {
                        Err(DecodeError::InvalidChecksum)
                    } else {
                        parse_payload(command_name(bytes.subrange(4, 16)), payload)
                    }
                }
            },
        }
    }
}

/// The length of the frame whose header `bytes` starts with.
pub fn frame_len(bytes: &[u8]) -> (result: Result<usize, DecodeError>)
    ensures
        match (result, parse_frame_len(bytes@)) {
            (Ok(n), Ok(m)) => n == m,
            (Err(e), Err(f)) => e == f,
            _ => false,
        },
{
    if bytes.len() < HEADER_LEN {
        return Err(DecodeError::UnexpectedEof);
    }
    let payload_len = read_le(bytes, 16, 4);
    if payload_len > MAX_PAYLOAD_LEN as u128 {
        return Err(DecodeError::OversizedFrame);
    }
    Ok(HEADER_LEN + payload_len as usize)
}

/// Writes the frame of `message`, if the message fits one.
pub fn encode(message: &NetworkMessage) -> (result: Option<Vec<u8>>)
    ensures
        result is Some <==> encodable(message@),
        result matches Some(bytes) ==> bytes@ == frame(message@),
{
    let name: &str = match message {
        NetworkMessage::Version(_) => "version",
        NetworkMessage::Verack => "verack",
        NetworkMessage::Other { command, .. } => command.as_str(),
    };
    if !name.is_ascii() {
        return None;
    }
    let name_bytes = name.as_bytes();
    if name_bytes.len() > COMMAND_LEN {
        return None;
    }
    let built: Vec<u8> = match message {
        NetworkMessage::Version(version) => encode_version(version),
        _ => Vec::new(),
    };
    let payload: &[u8] = match message {
        NetworkMessage::Other { payload, .. } => payload.as_slice(),
        _ => built.as_slice(),
    };
    if payload.len() > MAX_PAYLOAD_LEN {
        return None;
    }
    let mut out: Vec<u8> = Vec::new();
    out.push(MAGIC[0]);
    out.push(MAGIC[1]);
    out.push(MAGIC[2]);
    out.push(MAGIC[3]);
    let mut i: usize = 0;
    while i < COMMAND_LEN
        invariant
            i <= COMMAND_LEN,
            name_bytes@.len() <= COMMAND_LEN,
            name_bytes@ == Seq::new(name@.len(), |k: int| name@[k] as u8),
            out@ == MAGIC@ + command_field(name@).take(i as int),
        decreases COMMAND_LEN - i,
    {
        let byte: u8 = if i < name_bytes.len() {
            name_bytes[i]
        } else {
            0
        };
        out.push(byte);
        i += 1;
    }
    push_le(&mut out, payload.len() as u128, 4);
    let sum = checksum_of(payload);
    out.push(sum[0]);
    out.push(sum[1]);
    out.push(sum[2]);
    out.push(sum[3]);
    out.extend_from_slice(payload);
    Some(out)
}

/// Whether the bytes of `name`, read as characters, spell `literal`.
fn spells(name: &[u8], literal: &str) -> (same: bool)
    requires
        literal.is_ascii(),
        all_ascii(name@),
    ensures
        same == (Seq::new(name@.len(), |i: int| name@[i] as char) == literal@),
{
    let literal_bytes = literal.as_bytes();
    let ghost chars = Seq::new(name@.len(), |i: int| name@[i] as char);
    if name.len() != literal_bytes.len() {
        return false;
    }
    let mut i: usize = 0;
    while i < name.len()
        invariant
            i <= name@.len(),
            name@.len() == literal@.len(),
            all_ascii(name@),
            is_ascii_chars(literal@),
            chars == Seq::new(name@.len(), |i: int| name@[i] as char),
            literal_bytes@ == Seq::new(literal@.len(), |k: int| literal@[k] as u8),
            forall|k: int| 0 <= k < i ==> chars[k] == literal@[k],
        decreases name@.len() - i,
    {
        if name[i] != literal_bytes[i] {
            return false;
        }
        i += 1;
    }
    assert(chars =~= literal@);
    true
}

/// The bytes of `name` as a string, one character for each byte.
fn ascii_string(name: &[u8]) -> (text: String)
    requires
        all_ascii(name@),
    ensures
        text@ == Seq::new(name@.len(), |i: int| name@[i] as char),
{
    let mut text = String::new();
    let mut i: usize = 0;
    while i < name.len()
        invariant
            i <= name@.len(),
            all_ascii(name@),
            text@ == Seq::new(i as nat, |k: int| name@[k] as char),
        decreases name@.len() - i,
    {
        push_char(&mut text, name[i] as char);
        i += 1;
    }
    text
}

/// Reads the message of the frame that `bytes` starts with.
pub fn decode(bytes: &[u8]) -> (result: Result<NetworkMessage, DecodeError>)
    ensures
        match (result, parse_frame(bytes@)) {
            (Ok(message), Ok(parsed)) => message@ == parsed,
            (Err(e), Err(f)) => e == f,
            _ => false,
        },
{
    let total = bytes.len();
    if total < HEADER_LEN {
        return Err(DecodeError::UnexpectedEof);
    }
    let field = slice_subrange(bytes, 4, 16);
    let mut i: usize = 0;
    while i < COMMAND_LEN
        invariant
            i <= COMMAND_LEN,
            bytes@.len() >= HEADER_LEN,
            field@ == bytes@.subrange(4, 16),
            forall|k: int| 0 <= k < i ==> field@[k] < 128,
        decreases COMMAND_LEN - i,
    {
        if field[i] >= 128 {
            return Err(DecodeError::NonAsciiCommand);
        }
        i += 1;
    }
    let end = match frame_len(bytes) {
        Err(e) => { return Err(e); },
        Ok(end) => end,
    };
    if total < end {
        return Err(DecodeError::UnexpectedEof);
    }
    let payload = slice_subrange(bytes, HEADER_LEN, end);
    let sum = checksum_of(payload);
    if bytes[20] != sum[0] || bytes[21] != sum[1] || bytes[22] != sum[2] || bytes[23] != sum[3] {
        return Err(DecodeError::InvalidChecksum);
    }
    assert(bytes@.subrange(20, 24) =~= checksum(payload@));
    let mut n: usize = COMMAND_LEN;
    assert(field@.take(n as int) =~= field@);
    while n > 0 && field[n - 1] == 0
        invariant
            n <= COMMAND_LEN,
            field@.len() == COMMAND_LEN,
            trimmed_len(field@) == trimmed_len(field@.take(n as int)),
        decreases n,
    {
        assert(field@.take(n as int).drop_last() =~= field@.take(n - 1));
        n -= 1;
    }
    let name = slice_subrange(field, 0, n);
    assert(Seq::new(name@.len(), |i: int| name@[i] as char) =~= command_name(field@));
    proof {
        reveal_strlit("version");
        reveal_strlit("verack");
    }
    if spells(name, "version") {
        match decode_version(payload) {
            Ok(version) => Ok(NetworkMessage::Version(version)),
            Err(e) => Err(e),
        }
    } else if spells(name, "verack") {
        if payload.len() == 0 {
            Ok(NetworkMessage::Verack)
        } else {
            Err(DecodeError::TrailingBytes)
        }
    } else {
        Ok(NetworkMessage::Other { command: ascii_string(name), payload: slice_to_vec(payload) })
    }
}

} // verus!
