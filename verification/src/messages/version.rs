//! The greeting that opens a handshake.

use vstd::prelude::*;

use crate::address::{IpAddress, SocketAddress};
use crate::messages::{MessageView, NetAddress, NetworkMessage, VersionMessage, VersionView};

verus! {

/// The protocol version that this client speaks, and the lowest it accepts from a peer.
pub const PROTOCOL_VERSION: u32 = 70001;

/// How this client names itself to its peers.
pub const USER_AGENT: &'static str = "P2P Handshake PoC";

/// The `version` payload that this client sends to `to_address` at `timestamp`
/// with `nonce`: no services, the unspecified address `0.0.0.0:0` as its own,
/// height 0, and no relay.
pub open spec fn version_view(to_address: SocketAddress, timestamp: i64, nonce: u64) -> VersionView {
    VersionView {
        version: PROTOCOL_VERSION,
        services: 0,
        timestamp,
        receiver: NetAddress::of(to_address, 0),
        sender: NetAddress::of(SocketAddress { ip: IpAddress::V4(0), port: 0 }, 0),
        nonce,
        user_agent: USER_AGENT@,
        start_height: 0,
        relay: false,
    }
}

/// Draws the nonce of one `version` message from the thread-local generator
/// of the `rand` crate (`thread_rng().gen()`). Nothing is claimed of the value.
#[verifier::external_body]
fn fresh_nonce() -> u64 {
    bitcoin::secp256k1::rand::Rng::gen(&mut bitcoin::secp256k1::rand::thread_rng())
}

/// The `version` message for `to_address` with every field given.
pub fn version_msg_with(to_address: SocketAddress, timestamp: i64, nonce: u64) -> (message:
    NetworkMessage)
    ensures
        message@ == MessageView::Version(version_view(to_address, timestamp, nonce)),
{
    let ignore_from_address = SocketAddress::new(IpAddress::V4(0), 0);
    NetworkMessage::Version(
        VersionMessage {
            version: PROTOCOL_VERSION,
            services: 0,
            timestamp,
            receiver: NetAddress::new(&to_address, 0),
            sender: NetAddress::new(&ignore_from_address, 0),
            nonce,
            user_agent: USER_AGENT.to_owned(),
            start_height: 0,
            relay: false,
        },
    )
}

/// The `version` message for `to_address`, sent at `timestamp` (seconds since
/// the Unix epoch), with a nonce drawn afresh on every call.
pub fn version_msg(to_address: SocketAddress, timestamp: i64) -> (message: NetworkMessage)
    ensures
        message@ matches MessageView::Version(sent) && sent == version_view(
            to_address,
            timestamp,
            sent.nonce,
        ),
{
    version_msg_with(to_address, timestamp, fresh_nonce())
}

} // verus!
