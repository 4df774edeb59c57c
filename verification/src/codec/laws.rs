//! What holds of the wire format: a frame reads back as the message it was
//! written from, and a frame with a damaged checksum is not accepted.

use vstd::prelude::*;
use vstd::utf8::{encode_utf8, is_ascii_chars};

use crate::codec::digest::checksum;
use crate::codec::frame::{
    all_ascii, command_field, command_name, encodable, frame, parse_frame, parse_frame_len,
    payload_of, trimmed_len, COMMAND_LEN, HEADER_LEN, MAGIC,
};
use crate::codec::ints::{
    be_bytes, le_bytes, lemma_be_bytes_len, lemma_be_round_trip, lemma_le_bytes_len,
    lemma_le_round_trip, lemma_pow256_values, pow256, unsigned,
};
use crate::codec::payload::{
    address_bytes, compact_size, parse_address, parse_compact_size, parse_version,
    version_payload, VERSION_HEAD_LEN, VERSION_TAIL_LEN,
};
use crate::error::DecodeError;
use crate::messages::{MessageView, NetAddress, VersionView};

verus! {

/// A compact length reads back as the length, whatever follows it.
pub proof fn lemma_compact_size_round_trip(n: nat, rest: Seq<u8>)
    requires
        n < pow256(8),
    ensures
        parse_compact_size(compact_size(n) + rest) == Ok::<(nat, nat), DecodeError>(
            (n, compact_size(n).len()),
        ),
{
    lemma_pow256_values();
    let bytes = compact_size(n) + rest;
    if n >= 0xfd {
        let width: nat = if n <= 0xffff {
            2
        } else if n <= 0xffff_ffff {
            4
        } else {
            8
        };
        lemma_le_bytes_len(n, width);
        lemma_le_round_trip(n, width);
        assert(bytes.subrange(1, 1 + width as int) =~= le_bytes(n, width));
    }
}

/// The 26 bytes of an address read back as the address.
pub proof fn lemma_address_round_trip(address: NetAddress)
    ensures
        address_bytes(address).len() == 26,
        parse_address(address_bytes(address)) == address,
{
    lemma_pow256_values();
    let bytes = address_bytes(address);
    lemma_le_bytes_len(address.services as nat, 8);
    lemma_be_bytes_len(address.address as nat, 16);
    lemma_be_bytes_len(address.port as nat, 2);
    lemma_le_round_trip(address.services as nat, 8);
    lemma_be_round_trip(address.address as nat, 16);
    lemma_be_round_trip(address.port as nat, 2);
    assert(bytes.subrange(0, 8) =~= le_bytes(address.services as nat, 8));
    assert(bytes.subrange(8, 24) =~= be_bytes(address.address as nat, 16));
    assert(bytes.subrange(24, 26) =~= be_bytes(address.port as nat, 2));
}

/// The length of a `version` payload.
pub proof fn lemma_version_payload_len(version: VersionView)
    ensures
        version_payload(version).len() == VERSION_HEAD_LEN + compact_size(
            encode_utf8(version.user_agent).len(),
        ).len() + encode_utf8(version.user_agent).len() + VERSION_TAIL_LEN,
{
    lemma_le_bytes_len(version.version as nat, 4);
    lemma_le_bytes_len(version.services as nat, 8);
    lemma_le_bytes_len(unsigned(version.timestamp as int, 8), 8);
    lemma_address_round_trip(version.receiver);
    lemma_address_round_trip(version.sender);
    lemma_le_bytes_len(version.nonce as nat, 8);
    lemma_le_bytes_len(unsigned(version.start_height as int, 4), 4);
}

/// The payload of a `version` message reads back as the message, field by
/// field.
pub proof fn lemma_version_round_trip(version: VersionView)
    requires
        encode_utf8(version.user_agent).len() < pow256(8),
    ensures
        parse_version(version_payload(version)) == Ok::<VersionView, DecodeError>(version),
{
    lemma_pow256_values();
    let text = encode_utf8(version.user_agent);
    let prefix = compact_size(text.len());
    let timestamp = unsigned(version.timestamp as int, 8);
    let height = unsigned(version.start_height as int, 4);
    let flag = seq![if version.relay { 1u8 } else { 0u8 }];
    let payload = version_payload(version);
    let text_at = VERSION_HEAD_LEN + prefix.len();
    let tail_at = text_at + text.len();

    lemma_version_payload_len(version);
    lemma_le_bytes_len(version.version as nat, 4);
    lemma_le_bytes_len(version.services as nat, 8);
    lemma_le_bytes_len(timestamp, 8);
    lemma_address_round_trip(version.receiver);
    lemma_address_round_trip(version.sender);
    lemma_le_bytes_len(version.nonce as nat, 8);

    lemma_le_round_trip(version.version as nat, 4);
    lemma_le_round_trip(version.services as nat, 8);
    lemma_le_round_trip(timestamp, 8);
    lemma_le_round_trip(version.nonce as nat, 8);
    lemma_le_round_trip(height, 4);

    assert(payload.subrange(0, 4) =~= le_bytes(version.version as nat, 4));
    assert(payload.subrange(4, 12) =~= le_bytes(version.services as nat, 8));
    assert(payload.subrange(12, 20) =~= le_bytes(timestamp, 8));
    assert(payload.subrange(20, 46) =~= address_bytes(version.receiver));
    assert(payload.subrange(46, 72) =~= address_bytes(version.sender));
    assert(payload.subrange(72, 80) =~= le_bytes(version.nonce as nat, 8));

    let rest = text + le_bytes(height, 4) + flag;
    assert(payload.skip(VERSION_HEAD_LEN as int) =~= prefix + rest);
    lemma_compact_size_round_trip(text.len(), rest);

    assert(payload.subrange(text_at as int, tail_at as int) =~= text);
    vstd::utf8::encode_utf8_valid_utf8(version.user_agent);
    vstd::utf8::encode_utf8_decode_utf8(version.user_agent);
    assert(payload.subrange(tail_at as int, tail_at + 4) =~= le_bytes(height, 4));
}

/// A command field holds its name: the name reads back, and the field is
/// ASCII when the name is.
pub proof fn lemma_command_round_trip(name: Seq<char>)
    requires
        name.len() <= COMMAND_LEN,
        is_ascii_chars(name),
        name.len() > 0 ==> name.last() != '\0',
    ensures
        command_field(name).len() == COMMAND_LEN,
        all_ascii(command_field(name)),
        command_name(command_field(name)) == name,
{
    let field = command_field(name);
    lemma_trimmed_len(field, field.len(), name.len());
    assert(field.take(field.len() as int) =~= field);
}

/// Zero bytes at the end of a field do not count: if the first `n` bytes of
/// `field` are zero from `k` on, and the byte before is not, they trim to
/// `k`.
proof fn lemma_trimmed_len(field: Seq<u8>, n: nat, k: nat)
    requires
        k <= n <= field.len(),
        forall|i: int| k <= i < n ==> field[i] == 0,
        k > 0 ==> field[k - 1] != 0,
    ensures
        trimmed_len(field.take(n as int)) == k,
    decreases n,
{
    if n > k {
        lemma_trimmed_len(field, (n - 1) as nat, k);
        assert(field.take(n as int).drop_last() =~= field.take(n - 1));
    }
}

/// Whether decoding gives the message back: beyond fitting a frame, a
/// message outside the handshake must not bear one of the handshake's names,
/// and its name cannot end in the zero character, which pads the field.
pub open spec fn canonical(message: MessageView) -> bool {
    &&& encodable(message)
    &&& message matches MessageView::Other { command, .. } ==> {
        &&& command != "version"@
        &&& command != "verack"@
        &&& command.len() > 0 ==> command.last() != '\0'
    }
}

/// The length of a frame, and the place of each of its parts.
pub proof fn lemma_frame_layout(message: MessageView)
    requires
        encodable(message),
    ensures
        frame(message).len() == HEADER_LEN + payload_of(message).len(),
        frame(message).subrange(0, 4) == MAGIC@,
        frame(message).subrange(4, 16) == command_field(message.command()),
        frame(message).subrange(16, 20) == le_bytes(payload_of(message).len(), 4),
        frame(message).subrange(20, 24) == checksum(payload_of(message)),
        frame(message).subrange(HEADER_LEN as int, frame(message).len() as int) == payload_of(
            message,
        ),
        parse_frame_len(frame(message)) == Ok::<nat, DecodeError>(frame(message).len()),
{
    lemma_pow256_values();
    let payload = payload_of(message);
    let bytes = frame(message);
    lemma_le_bytes_len(payload.len(), 4);
    lemma_le_round_trip(payload.len(), 4);
    assert(bytes.subrange(16, 20) =~= le_bytes(payload.len(), 4));
}

/// Encoding, then decoding, gives the message back. For a `version` message
/// that is every field of it: version, services, timestamp, both addresses,
/// nonce, user agent, start height and relay flag.
pub proof fn lemma_decode_encode(message: MessageView)
    requires
        canonical(message),
    ensures
        parse_frame(frame(message)) == Ok::<MessageView, DecodeError>(message),
{
    reveal_strlit("version");
    reveal_strlit("verack");
    lemma_pow256_values();
    lemma_frame_layout(message);
    lemma_command_round_trip(message.command());
    if let MessageView::Version(version) = message {
        lemma_version_round_trip(version);
    }
}

/// A frame whose checksum was damaged is rejected: change any one of the
/// four checksum bytes of a frame to any other value, and decoding fails
/// with `InvalidChecksum`.
pub proof fn lemma_corrupt_checksum_rejected(message: MessageView, at: int, byte: u8)
    requires
        encodable(message),
        20 <= at < 24,
        byte != frame(message)[at],
    ensures
        parse_frame(frame(message).update(at, byte)) == Err::<MessageView, DecodeError>(
            DecodeError::InvalidChecksum,
        ),
{
    let good = frame(message);
    let bad = good.update(at, byte);
    lemma_frame_layout(message);
    assert(bad.subrange(16, 20) =~= good.subrange(16, 20));
    assert(bad.subrange(HEADER_LEN as int, bad.len() as int) =~= good.subrange(
        HEADER_LEN as int,
        good.len() as int,
    ));
}

} // verus!
