//! The two frames that this client sends.

use vstd::prelude::*;

use crate::address::SocketAddress;
use crate::codec::frame::{encodable, encode, frame};
use crate::codec::laws::lemma_version_payload_len;
use crate::messages::verack::verack_msg;
use crate::messages::version::{version_msg, version_view, USER_AGENT};
use crate::messages::MessageView;

verus! {

/// The frame of the greeting that goes to `target_node` at `timestamp` with
/// `nonce`.
pub open spec fn version_frame(target_node: SocketAddress, timestamp: i64, nonce: u64) -> Seq<u8> {
    frame(MessageView::Version(version_view(target_node, timestamp, nonce)))
}

/// The frame of the acknowledgement.
pub open spec fn verack_frame() -> Seq<u8> {
    frame(MessageView::Verack)
}

/// Every greeting of this client fits a frame.
pub proof fn lemma_version_encodable(target_node: SocketAddress, timestamp: i64, nonce: u64)
    ensures
        encodable(MessageView::Version(version_view(target_node, timestamp, nonce))),
{
    reveal_strlit("version");
    reveal_strlit("P2P Handshake PoC");
    let version = version_view(target_node, timestamp, nonce);
    vstd::utf8::is_ascii_chars_encode_utf8(USER_AGENT@);
    lemma_version_payload_len(version);
}

/// The frame of the greeting for `target_node`, to be written to the peer.
/// `timestamp` is the clock in seconds since the Unix epoch; the nonce is
/// drawn afresh.
pub fn send_msg_version(target_node: &SocketAddress, timestamp: i64) -> (bytes: Vec<u8>)
    ensures
        exists|nonce: u64| bytes@ == #[trigger] version_frame(*target_node, timestamp, nonce),
{
    let payload = version_msg(*target_node, timestamp);
    proof {
        let sent = payload@->Version_0;
        lemma_version_encodable(*target_node, timestamp, sent.nonce);
    }
    let bytes = encode(&payload).unwrap();
    assert(bytes@ == version_frame(*target_node, timestamp, payload@->Version_0.nonce));
    bytes
}

/// The frame of the acknowledgement, to be written to the peer.
pub fn send_msg_verack() -> (bytes: Vec<u8>)
    ensures
        bytes@ == verack_frame(),
{
    let payload = verack_msg();
    proof {
        reveal_strlit("verack");
    }
    encode(&payload).unwrap()
}

} // verus!
