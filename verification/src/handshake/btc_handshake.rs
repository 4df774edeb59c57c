//! One handshake attempt: where it stands, and with whom.

use vstd::prelude::*;
use vstd::string::StringExecFns;

use crate::address::{IpAddress, SocketAddress};
use crate::handshake::FIVE_SECONDS;

verus! {

/// The state of an attempt as a caller sees it. `Success`, `Failed` and
/// `PartiallyComplete` are final.
#[derive(Clone, Debug, PartialEq, Eq)]
pub enum BitcoinHandshakeState {
    NotStarted,
    Started,
    Success,
    /// The attempt broke off; the text says why.
    Failed(String),
    /// The peer answered the greeting but not with an acknowledgement; the
    /// text says with what.
    PartiallyComplete(String),
}

/// A [`BitcoinHandshakeState`] with its text as a character sequence.
pub enum StateView {
    NotStarted,
    Started,
    Success,
    Failed(Seq<char>),
    PartiallyComplete(Seq<char>),
}

impl StateView {
    /// Whether the attempt is over.
    pub open spec fn is_terminal(self) -> bool {
        self is Success || self is Failed || self is PartiallyComplete
    }

    /// The state in one word or two.
    pub open spec fn short_text(self) -> Seq<char> {
        match self {
            StateView::NotStarted => "NOT STARTED"@,
            StateView::Started => "STARTED"@,
            StateView::Success => "SUCCESS"@,
            StateView::Failed(_) => "FAILED"@,
            StateView::PartiallyComplete(_) => "PARTIAL"@,
        }
    }

    /// The state with its reason, where it has one.
    pub open spec fn text(self) -> Seq<char> {
        match self {
            StateView::NotStarted => "NOT STARTED"@,
            StateView::Started => "STARTED"@,
            StateView::Success => "SUCCESS"@,
            StateView::Failed(reason) => "FAILED: "@ + reason,
            StateView::PartiallyComplete(reason) => "PARTIAL: "@ + reason,
        }
    }
}

impl View for BitcoinHandshakeState {
    type V = StateView;

    open spec fn view(&self) -> StateView {
        match self {
            BitcoinHandshakeState::NotStarted => StateView::NotStarted,
            BitcoinHandshakeState::Started => StateView::Started,
            BitcoinHandshakeState::Success => StateView::Success,
            BitcoinHandshakeState::Failed(reason) => StateView::Failed(reason@),
            BitcoinHandshakeState::PartiallyComplete(reason) => StateView::PartiallyComplete(
                reason@,
            ),
        }
    }
}

impl BitcoinHandshakeState {
    /// The state in one word or two.
    pub fn short_txt(&self) -> (text: String)
        ensures
            text@ == self@.short_text(),
    {
        match self {
            BitcoinHandshakeState::NotStarted => String::from_str("NOT STARTED"),
            BitcoinHandshakeState::Started => String::from_str("STARTED"),
            BitcoinHandshakeState::Success => String::from_str("SUCCESS"),
            BitcoinHandshakeState::Failed(_) => String::from_str("FAILED"),
            BitcoinHandshakeState::PartiallyComplete(_) => String::from_str("PARTIAL"),
        }
    }

    /// The state with its reason, where it has one.
    pub fn to_string(&self) -> (text: String)
        ensures
            text@ == self@.text(),
    {
        match self {
            BitcoinHandshakeState::NotStarted => String::from_str("NOT STARTED"),
            BitcoinHandshakeState::Started => String::from_str("STARTED"),
            BitcoinHandshakeState::Success => String::from_str("SUCCESS"),
            BitcoinHandshakeState::Failed(reason) => String::from_str("FAILED: ").concat(
                reason.as_str(),
            ),
            BitcoinHandshakeState::PartiallyComplete(reason) => String::from_str(
                "PARTIAL: ",
            ).concat(reason.as_str()),
        }
    }

    /// Whether the attempt is over.
    pub fn is_terminal(&self) -> (over: bool)
        ensures
            over == self@.is_terminal(),
    {
        match self {
            BitcoinHandshakeState::NotStarted | BitcoinHandshakeState::Started => false,
            _ => true,
        }
    }
}

/// How far an attempt has come. The state follows from it.
#[derive(Clone, Debug)]
pub enum HandshakeStage {
    /// Nothing was done yet.
    Idle,
    /// The connection is being opened.
    Connecting,
    /// The greeting was sent; the peer's greeting is awaited.
    AwaitingVersion,
    /// The acknowledgement was sent; the peer's acknowledgement is awaited.
    AwaitingVerack,
    /// Both exchanges went as they should.
    Succeeded,
    /// The attempt broke off.
    Failed(String),
    /// The second exchange brought something else than an acknowledgement.
    Partial(String),
}

/// A [`HandshakeStage`] with its text as a character sequence.
pub enum StageView {
    Idle,
    Connecting,
    AwaitingVersion,
    AwaitingVerack,
    Succeeded,
    Failed(Seq<char>),
    Partial(Seq<char>),
}

impl StageView {
    /// The state of an attempt at this stage.
    pub open spec fn state(self) -> StateView {
        match self {
            StageView::Idle => StateView::NotStarted,
            StageView::Connecting | StageView::AwaitingVersion | StageView::AwaitingVerack =>
                StateView::Started,
            StageView::Succeeded => StateView::Success,
            StageView::Failed(reason) => StateView::Failed(reason),
            StageView::Partial(reason) => StateView::PartiallyComplete(reason),
        }
    }
}

impl View for HandshakeStage {
    type V = StageView;

    open spec fn view(&self) -> StageView {
        match self {
            HandshakeStage::Idle => StageView::Idle,
            HandshakeStage::Connecting => StageView::Connecting,
            HandshakeStage::AwaitingVersion => StageView::AwaitingVersion,
            HandshakeStage::AwaitingVerack => StageView::AwaitingVerack,
            HandshakeStage::Succeeded => StageView::Succeeded,
            HandshakeStage::Failed(reason) => StageView::Failed(reason@),
            HandshakeStage::Partial(reason) => StageView::Partial(reason@),
        }
    }
}

/// The record of one attempt: the seed that named the peer, the peer's
/// address and port, the timeout of every step, and how far the attempt
/// has come.
#[derive(Debug)]
pub struct BitcoinHandshake {
    dns_name: String,
    ip_addr: IpAddress,
    port: u16,
    timeout_millis: u64,
    stage: HandshakeStage,
}

/// A [`BitcoinHandshake`] with its texts as character sequences.
pub struct HandshakeView {
    pub dns_name: Seq<char>,
    pub ip_addr: IpAddress,
    pub port: u16,
    pub timeout_millis: u64,
    pub stage: StageView,
}

impl HandshakeView {
    /// The state of the attempt.
    pub open spec fn state(self) -> StateView {
        self.stage.state()
    }

    /// The peer's endpoint.
    pub open spec fn target(self) -> SocketAddress {
        SocketAddress { ip: self.ip_addr, port: self.port }
    }

    /// The line that tells of the attempt, with `state` as its last part.
    pub open spec fn line(self, state: Seq<char>) -> Seq<char> {
        "Handshake with "@ + self.dns_name + " ("@ + self.ip_addr.text() + ") -> "@ + state
    }

    /// The line that tells of the attempt, with the state in one word or two.
    pub open spec fn short_text(self) -> Seq<char> {
        self.line(self.state().short_text())
    }

    /// The line that tells of the attempt, with the state and its reason.
    pub open spec fn text(self) -> Seq<char> {
        self.line(self.state().text())
    }

    /// The same record at another stage.
    pub open spec fn at(self, stage: StageView) -> HandshakeView {
        HandshakeView { stage, ..self }
    }
}

impl View for BitcoinHandshake {
    type V = HandshakeView;

    closed spec fn view(&self) -> HandshakeView {
        HandshakeView {
            dns_name: self.dns_name@,
            ip_addr: self.ip_addr,
            port: self.port,
            timeout_millis: self.timeout_millis,
            stage: self.stage@,
        }
    }
}

impl BitcoinHandshake {
    /// A record for an attempt that has not started. Without a timeout of
    /// its own it gets five seconds.
    pub fn new(dns_name: String, ip_addr: IpAddress, port: u16, timeout_millis: Option<u64>) -> (fresh:
        BitcoinHandshake)
        ensures
            fresh@ == (HandshakeView {
                dns_name: dns_name@,
                ip_addr,
                port,
                timeout_millis: match timeout_millis {
                    Some(millis) => millis,
                    None => FIVE_SECONDS,
                },
                stage: StageView::Idle,
            }),
    {
        BitcoinHandshake {
            dns_name,
            ip_addr,
            port,
            timeout_millis: if let Some(millis) = timeout_millis {
                millis
            } else {
                FIVE_SECONDS
            },
            stage: HandshakeStage::Idle,
        }
    }

    /// The state of the attempt.
    pub fn state(&self) -> (state: BitcoinHandshakeState)
        ensures
            state@ == self@.state(),
    {
        match &self.stage {
            HandshakeStage::Idle => BitcoinHandshakeState::NotStarted,
            HandshakeStage::Connecting
            | HandshakeStage::AwaitingVersion
            | HandshakeStage::AwaitingVerack => BitcoinHandshakeState::Started,
            HandshakeStage::Succeeded => BitcoinHandshakeState::Success,
            HandshakeStage::Failed(reason) => BitcoinHandshakeState::Failed(reason.clone()),
            HandshakeStage::Partial(reason) => BitcoinHandshakeState::PartiallyComplete(
                reason.clone(),
            ),
        }
    }

    /// The name of the seed that named the peer.
    pub fn dns_name(&self) -> (name: &str)
        ensures
            name@ == self@.dns_name,
    {
        self.dns_name.as_str()
    }

    /// The peer's address.
    pub fn ip_addr(&self) -> (ip: IpAddress)
        ensures
            ip == self@.ip_addr,
    {
        self.ip_addr
    }

    /// The port on which the peer is attempted.
    pub fn port(&self) -> (port: u16)
        ensures
            port == self@.port,
    {
        self.port
    }

    /// The line that tells of the attempt, with `state` as its last part.
    fn line(&self, state: &str) -> (text: String)
        ensures
            text@ == self@.line(state@),
    {
        let ip = self.ip_addr.to_string();
        let mut text = String::from_str("Handshake with ");
        text.append(self.dns_name.as_str());
        text.append(" (");
        text.append(ip.as_str());
        text.append(") -> ");
        text.append(state);
        text
    }

    /// The line that tells of the attempt, with the state in one word or two.
    pub fn short_txt(&self) -> (text: String)
        ensures
            text@ == self@.short_text(),
    {
        let state = self.state().short_txt();
        self.line(state.as_str())
    }

    /// The line that tells of the attempt, with the state and its reason.
    pub fn to_string(&self) -> (text: String)
        ensures
            text@ == self@.text(),
    {
        let state = self.state().to_string();
        self.line(state.as_str())
    }

    /// The peer's endpoint.
    pub fn target(&self) -> (target: SocketAddress)
        ensures
            target == self@.target(),
    {
        SocketAddress::new(self.ip_addr, self.port)
    }

    /// The timeout of every step of the attempt, in milliseconds.
    pub fn timeout_millis(&self) -> (millis: u64)
        ensures
            millis == self@.timeout_millis,
    {
        self.timeout_millis
    }

    /// How far the attempt has come.
    pub fn stage(&self) -> (stage: &HandshakeStage)
        ensures
            stage@ == self@.stage,
    {
        &self.stage
    }

    /// Moves the attempt to `stage`.
    pub(crate) fn set_stage(&mut self, stage: HandshakeStage)
        ensures
            final(self)@ == old(self)@.at(stage@),
    {
        self.stage = stage;
    }
}

} // verus!
