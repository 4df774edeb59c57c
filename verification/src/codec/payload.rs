//! The payload of a `version` message, field by field.

use vstd::prelude::*;
use vstd::slice::{slice_subrange, slice_to_vec};
use vstd::utf8::{decode_utf8, encode_utf8, valid_utf8};

use crate::codec::ints::{
    be_bytes, be_value, bits_of_i32, bits_of_i64, i32_of_bits, i64_of_bits, le_bytes, le_value,
    lemma_le_bytes_len, lemma_pow256_values, push_be, push_le, read_be, read_le, signed, unsigned,
};
use crate::error::DecodeError;
use crate::messages::{NetAddress, VersionMessage, VersionView};
use crate::text::string_from_utf8;

verus! {

/// A length as the wire carries it: one byte below `0xfd`, else a marker byte
/// and the length in two, four or eight little-endian bytes, whichever is
/// the shortest that holds it.
pub open spec fn compact_size(n: nat) -> Seq<u8> {
    if n < 0xfd {
        seq![n as u8]
    } else if n <= 0xffff {
        seq![0xfdu8] + le_bytes(n, 2)
    } else if n <= 0xffff_ffff {
        seq![0xfeu8] + le_bytes(n, 4)
    } else {
        seq![0xffu8] + le_bytes(n, 8)
    }
}

/// The length at the head of `bytes` and the number of bytes it takes up.
pub open spec fn parse_compact_size(bytes: Seq<u8>) -> Result<(nat, nat), DecodeError> {
    if bytes.len() < 1 {
        Err(DecodeError::UnexpectedEof)
    } else if bytes[0] < 0xfd {
        Ok((bytes[0] as nat, 1))
    } else {
        let width: nat = if bytes[0] == 0xfd {
            2
        } else if bytes[0] == 0xfe {
            4
        } else {
            8
        };
        if bytes.len() < 1 + width {
            Err(DecodeError::UnexpectedEof)
        } else {
            let n = le_value(bytes.subrange(1, 1 + width as int));
            if compact_size(n).len() != 1 + width {
                Err(DecodeError::NonMinimalVarInt)
            } else {
                Ok((n, 1 + width))
            }
        }
    }
}

/// An address in 26 bytes: the services little-endian, then the address and
/// the port in network byte order.
pub open spec fn address_bytes(address: NetAddress) -> Seq<u8> {
    le_bytes(address.services as nat, 8) + be_bytes(address.address as nat, 16) + be_bytes(
        address.port as nat,
        2,
    )
}

/// The address that 26 bytes stand for.
pub open spec fn parse_address(bytes: Seq<u8>) -> NetAddress {
    NetAddress {
        services: le_value(bytes.subrange(0, 8)) as u64,
        address: be_value(bytes.subrange(8, 24)) as u128,
        port: be_value(bytes.subrange(24, 26)) as u16,
    }
}

/// The length of the payload's part before the user agent.
pub const VERSION_HEAD_LEN: usize = 80;

/// The length of the payload's part after the user agent.
pub const VERSION_TAIL_LEN: usize = 5;

/// The payload of a `version` message.
pub open spec fn version_payload(version: VersionView) -> Seq<u8> {
    let user_agent = encode_utf8(version.user_agent);
    le_bytes(version.version as nat, 4) + le_bytes(version.services as nat, 8) + le_bytes(
        unsigned(version.timestamp as int, 8),
        8,
    ) + address_bytes(version.receiver) + address_bytes(version.sender) + le_bytes(
        version.nonce as nat,
        8,
    ) + compact_size(user_agent.len()) + user_agent + le_bytes(
        unsigned(version.start_height as int, 4),
        4,
    ) + seq![if version.relay { 1u8 } else { 0u8 }]
}

/// The `version` message that a payload stands for: every field must be
/// there, the user agent must be UTF-8, and nothing may follow the relay
/// flag. Any relay byte but 0 means yes.
pub open spec fn parse_version(payload: Seq<u8>) -> Result<VersionView, DecodeError> {
    if payload.len() < VERSION_HEAD_LEN {
        Err(DecodeError::UnexpectedEof)
    } else {
        match parse_compact_size(payload.skip(VERSION_HEAD_LEN as int)) {
            Err(e) => Err(e),
            Ok((text_len, prefix_len)) => {
                let text_at = VERSION_HEAD_LEN + prefix_len;
                let tail_at = text_at + text_len;
                if payload.len() < tail_at {
                    Err(DecodeError::UnexpectedEof)
                } else if !valid_utf8(payload.subrange(text_at as int, tail_at as int)) {
                    Err(DecodeError::InvalidUtf8)
                } else if payload.len() < tail_at + VERSION_TAIL_LEN {
                    Err(DecodeError::UnexpectedEof)
                } else if payload.len() > tail_at + VERSION_TAIL_LEN {
                    Err(DecodeError::TrailingBytes)
                } else {
                    Ok(
                        VersionView {
                            version: le_value(payload.subrange(0, 4)) as u32,
                            services: le_value(payload.subrange(4, 12)) as u64,
                            timestamp: signed(le_value(payload.subrange(12, 20)), 8) as i64,
                            receiver: parse_address(payload.subrange(20, 46)),
                            sender: parse_address(payload.subrange(46, 72)),
                            nonce: le_value(payload.subrange(72, 80)) as u64,
                            user_agent: decode_utf8(
                                payload.subrange(text_at as int, tail_at as int),
                            ),
                            start_height: signed(
                                le_value(payload.subrange(tail_at as int, tail_at + 4)),
                                4,
                            ) as i32,
                            relay: payload[tail_at + 4] != 0,
                        },
                    )
                }
            },
        }
    }
}

/// Appends the compact form of `n`.
pub fn push_compact_size(out: &mut Vec<u8>, n: u64)
    ensures
        final(out)@ == old(out)@ + compact_size(n as nat),
{
    if n < 0xfd {
        out.push(n as u8);
    } else if n <= 0xffff {
        out.push(0xfd);
        push_le(out, n as u128, 2);
    } else if n <= 0xffff_ffff {
        out.push(0xfe);
        push_le(out, n as u128, 4);
    } else {
        out.push(0xff);
        push_le(out, n as u128, 8);
    }
}

/// Reads the compact length at `at`; gives the length and the position after it.
pub fn read_compact_size(bytes: &[u8], at: usize) -> (result: Result<(u64, usize), DecodeError>)
    requires
        at <= bytes@.len(),
    ensures
        match (result, parse_compact_size(bytes@.skip(at as int))) {
            (Ok((n, next)), Ok((m, used))) => n == m && next == at + used,
            (Err(e), Err(f)) => e == f,
            _ => false,
        },
{
    let total = bytes.len();
    let ghost rest = bytes@.skip(at as int);
    if total - at < 1 {
        return Err(DecodeError::UnexpectedEof);
    }
    let first = bytes[at];
    if first < 0xfd {
        return Ok((first as u64, at + 1));
    }
    let width: usize = if first == 0xfd {
        2
    } else if first == 0xfe {
        4
    } else {
        8
    };
    if total - at < 1 + width {
        return Err(DecodeError::UnexpectedEof);
    }
    let n = read_le(bytes, at + 1, width);
    proof {
        assert(rest.subrange(1, 1 + width) =~= bytes@.subrange(at + 1, at + 1 + width));
        lemma_pow256_values();
        lemma_le_bytes_len(n as nat, 2);
        lemma_le_bytes_len(n as nat, 4);
        lemma_le_bytes_len(n as nat, 8);
    }
    let minimal = if first == 0xfd {
        0xfd <= n
    } else if first == 0xfe {
        0xffff < n
    } else {
        0xffff_ffff < n
    };
    if !minimal {
        return Err(DecodeError::NonMinimalVarInt);
    }
    Ok((n as u64, at + 1 + width))
}

/// Appends the 26 bytes of `address`.
pub fn push_address(out: &mut Vec<u8>, address: &NetAddress)
    ensures
        final(out)@ == old(out)@ + address_bytes(*address),
{
    push_le(out, address.services as u128, 8);
    push_be(out, address.address, 16);
    push_be(out, address.port as u128, 2);
}

/// Reads the 26 bytes of an address at `at`.
pub fn read_address(bytes: &[u8], at: usize) -> (address: NetAddress)
    requires
        at + 26 <= bytes@.len(),
    ensures
        address == parse_address(bytes@.subrange(at as int, at + 26)),
{
    let total = bytes.len();
    let ghost field = bytes@.subrange(at as int, at + 26);
    proof {
        assert(field.subrange(0, 8) =~= bytes@.subrange(at as int, at + 8));
        assert(field.subrange(8, 24) =~= bytes@.subrange(at + 8, at + 24));
        assert(field.subrange(24, 26) =~= bytes@.subrange(at + 24, at + 26));
    }
    let services = read_le(bytes, at, 8);
    let address = read_be(bytes, at + 8, 16);
    let port = read_be(bytes, at + 24, 2);
    NetAddress { services: services as u64, address, port: port as u16 }
}

/// Writes the payload of `version`.
pub fn encode_version(version: &VersionMessage) -> (payload: Vec<u8>)
    ensures
        payload@ == version_payload(version@),
{
    let user_agent = version.user_agent.as_str().as_bytes();
    let mut out: Vec<u8> = Vec::new();
    push_le(&mut out, version.version as u128, 4);
    push_le(&mut out, version.services as u128, 8);
    push_le(&mut out, bits_of_i64(version.timestamp) as u128, 8);
    push_address(&mut out, &version.receiver);
    push_address(&mut out, &version.sender);
    push_le(&mut out, version.nonce as u128, 8);
    push_compact_size(&mut out, user_agent.len() as u64);
    out.extend_from_slice(user_agent);
    push_le(&mut out, bits_of_i32(version.start_height) as u128, 4);
    out.push(if version.relay { 1 } else { 0 });
    out
}

/// Reads a `version` message from its payload.
pub fn decode_version(payload: &[u8]) -> (result: Result<VersionMessage, DecodeError>)
    ensures
        match (result, parse_version(payload@)) {
            (Ok(version), Ok(parsed)) => version@ == parsed,
            (Err(e), Err(f)) => e == f,
            _ => false,
        },
{
    let total = payload.len();
    if total < VERSION_HEAD_LEN {
        return Err(DecodeError::UnexpectedEof);
    }
    let (text_len, text_at) = match read_compact_size(payload, VERSION_HEAD_LEN) {
        Err(e) => { return Err(e); },
        Ok(found) => found,
    };
    if ((total - text_at) as u64) < text_len {
        return Err(DecodeError::UnexpectedEof);
    }
    let tail_at: usize = text_at + text_len as usize;
    let text = slice_to_vec(slice_subrange(payload, text_at, tail_at));
    let user_agent = match string_from_utf8(text) {
        None => { return Err(DecodeError::InvalidUtf8); },
        Some(user_agent) => user_agent,
    };
    if total - tail_at < VERSION_TAIL_LEN {
        return Err(DecodeError::UnexpectedEof);
    }
    if total - tail_at > VERSION_TAIL_LEN {
        return Err(DecodeError::TrailingBytes);
    }
    proof {
        lemma_pow256_values();
        vstd::utf8::encode_utf8_decode_utf8(user_agent@);
    }
    let version = read_le(payload, 0, 4);
    let services = read_le(payload, 4, 8);
    let timestamp = read_le(payload, 12, 8);
    let receiver = read_address(payload, 20);
    let sender = read_address(payload, 46);
    let nonce = read_le(payload, 72, 8);
    let start_height = read_le(payload, tail_at, 4);
    let relay = payload[tail_at + 4];
    Ok(
        VersionMessage {
            version: version as u32,
            services: services as u64,
            timestamp: i64_of_bits(timestamp as u64),
            receiver,
            sender,
            nonce: nonce as u64,
            user_agent,
            start_height: i32_of_bits(start_height as u32),
            relay: relay != 0,
        },
    )
}

} // verus!
