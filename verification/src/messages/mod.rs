//! The messages of the handshake, as values.

use vstd::prelude::*;

use crate::address::SocketAddress;

pub mod verack;
pub mod version;

verus! {

/// A peer's address as the `version` message carries it.
#[derive(Clone, Copy, Debug, PartialEq, Eq, Structural)]
pub struct NetAddress {
    /// The services that the peer offers, as a bit mask.
    pub services: u64,
    /// The 128 bits of the IPv6 address, or of the IPv4 address mapped into IPv6.
    pub address: u128,
    pub port: u16,
}

impl NetAddress {
    pub open spec fn of(socket: SocketAddress, services: u64) -> NetAddress {
        NetAddress { services, address: socket.ip.mapped(), port: socket.port }
    }

    pub fn new(socket: &SocketAddress, services: u64) -> (address: NetAddress)
        ensures
            address == Self::of(*socket, services),
    {
        NetAddress { services, address: socket.ip.to_ipv6_mapped(), port: socket.port }
    }
}

/// The payload of a `version` message.
#[derive(Clone, Debug)]
pub struct VersionMessage {
    /// The protocol version that the sender speaks.
    pub version: u32,
    /// The services that the sender offers, as a bit mask.
    pub services: u64,
    /// The sender's clock, in seconds since the Unix epoch.
    pub timestamp: i64,
    pub receiver: NetAddress,
    pub sender: NetAddress,
    /// A number picked by the sender for this connection.
    pub nonce: u64,
    pub user_agent: String,
    /// The height of the best chain that the sender knows.
    pub start_height: i32,
    /// Whether the sender wants transactions relayed to it.
    pub relay: bool,
}

/// A [`VersionMessage`] with its text as a character sequence.
pub struct VersionView {
    pub version: u32,
    pub services: u64,
    pub timestamp: i64,
    pub receiver: NetAddress,
    pub sender: NetAddress,
    pub nonce: u64,
    pub user_agent: Seq<char>,
    pub start_height: i32,
    pub relay: bool,
}

impl View for VersionMessage {
    type V = VersionView;

    open spec fn view(&self) -> VersionView {
        VersionView {
            version: self.version,
            services: self.services,
            timestamp: self.timestamp,
            receiver: self.receiver,
            sender: self.sender,
            nonce: self.nonce,
            user_agent: self.user_agent@,
            start_height: self.start_height,
            relay: self.relay,
        }
    }
}

/// A message as it travels in one frame.
#[derive(Clone, Debug)]
pub enum NetworkMessage {
    Version(VersionMessage),
    Verack,
    /// Any message that the handshake does not act on, kept as it came.
    Other { command: String, payload: Vec<u8> },
}

/// A [`NetworkMessage`] with its texts and bytes as sequences.
pub enum MessageView {
    Version(VersionView),
    Verack,
    Other { command: Seq<char>, payload: Seq<u8> },
}

impl MessageView {
    /// The command name under which the message travels.
    pub open spec fn command(self) -> Seq<char> {
        match self {
            MessageView::Version(_) => "version"@,
            MessageView::Verack => "verack"@,
            MessageView::Other { command, .. } => command,
        }
    }
}

impl View for NetworkMessage {
    type V = MessageView;

    open spec fn view(&self) -> MessageView {
        match self {
            NetworkMessage::Version(version) => MessageView::Version(version@),
            NetworkMessage::Verack => MessageView::Verack,
            NetworkMessage::Other { command, payload } => MessageView::Other {
                command: command@,
                payload: payload@,
            },
        }
    }
}

impl NetworkMessage {
    /// The command name under which the message travels.
    pub fn command(&self) -> (name: String)
        ensures
            name@ == self@.command(),
    {
        match self {
            NetworkMessage::Version(_) => "version".to_owned(),
            NetworkMessage::Verack => "verack".to_owned(),
            NetworkMessage::Other { command, .. } => command.clone(),
        }
    }
}

} // verus!
