//! The handshake with one peer, and the run over all peers of a seed.

use vstd::prelude::*;
use vstd::string::StringExecFns;

use crate::address::SocketAddress;
use crate::dns_name_resolver::{DnsNameResolver, LookupOutcome};
use crate::error::{Error, ErrorView};
use crate::handshake::btc_handshake::{BitcoinHandshake, HandshakeStage, HandshakeView, StageView};
use crate::handshake::btc_message::{
    fail, handle_verack_msg, handle_version_msg, receive_msg, received, reject, unexpected,
    verack_verdict, version_verdict, ReadOutcome, ReadOutcomeView,
};
use crate::handshake::campaign::{Campaign, CampaignView};
use crate::handshake::send_message::{
    send_msg_verack, send_msg_version, verack_frame, version_frame,
};

pub mod btc_handshake;
pub mod btc_message;
pub mod campaign;
pub mod laws;
pub mod send_message;

verus! {

/// The port on which peers of the main network listen.
pub const PORT_BITCOIN: u16 = 8333;

/// The timeout of every step where none is given, in milliseconds.
pub const FIVE_SECONDS: u64 = 5000;

/// What happened since the last step of an attempt.
#[derive(Debug)]
pub enum HandshakeEvent {
    /// The attempt is to begin.
    Start,
    /// The connection is open. `now` is the clock, in seconds since the Unix
    /// epoch.
    Connected { now: i64 },
    /// The connection was not opened within the timeout; the text is the
    /// transport's own.
    ConnectFailed(String),
    /// The frame could not be written; the text is the transport's own.
    SendFailed(String),
    /// The frame was written, and the read that followed ended.
    Read(ReadOutcome),
}

/// A [`HandshakeEvent`] with its bytes and texts as sequences.
pub enum EventView {
    Start,
    Connected { now: i64 },
    ConnectFailed(Seq<char>),
    SendFailed(Seq<char>),
    Read(ReadOutcomeView),
}

impl View for HandshakeEvent {
    type V = EventView;

    open spec fn view(&self) -> EventView {
        match self {
            HandshakeEvent::Start => EventView::Start,
            HandshakeEvent::Connected { now } => EventView::Connected { now: *now },
            HandshakeEvent::ConnectFailed(detail) => EventView::ConnectFailed(detail@),
            HandshakeEvent::SendFailed(detail) => EventView::SendFailed(detail@),
            HandshakeEvent::Read(outcome) => EventView::Read(outcome@),
        }
    }
}

/// What is to be done next in an attempt.
#[derive(Debug)]
pub enum HandshakeStep {
    /// Open a connection to `address`, within the timeout.
    Connect { address: SocketAddress, timeout_millis: u64 },
    /// Write `frame` to the peer, then read one frame, within the timeout.
    Exchange { frame: Vec<u8>, timeout_millis: u64 },
    /// The attempt is complete: close the connection.
    Close,
    /// The attempt has failed with this error; the record shows the reason.
    Abort(Error),
    /// The attempt was over before: there is nothing to do.
    Done,
}

/// A [`HandshakeStep`] with its bytes and texts as sequences.
pub enum StepView {
    Connect { address: SocketAddress, timeout_millis: u64 },
    Exchange { frame: Seq<u8>, timeout_millis: u64 },
    Close,
    Abort(ErrorView),
    Done,
}

impl View for HandshakeStep {
    type V = StepView;

    open spec fn view(&self) -> StepView {
        match self {
            HandshakeStep::Connect { address, timeout_millis } => StepView::Connect {
                address: *address,
                timeout_millis: *timeout_millis,
            },
            HandshakeStep::Exchange { frame, timeout_millis } => StepView::Exchange {
                frame: frame@,
                timeout_millis: *timeout_millis,
            },
            HandshakeStep::Close => StepView::Close,
            HandshakeStep::Abort(error) => StepView::Abort(error@),
            HandshakeStep::Done => StepView::Done,
        }
    }
}

/// The attempt fails with `error`: the record shows the reason, and the
/// error is handed out.
pub open spec fn failed_with(h: HandshakeView, error: ErrorView) -> (HandshakeView, StepView) {
    (h.at(StageView::Failed(error.reason())), StepView::Abort(error))
}

/// The handshake, step by step: the record after the event, and what is to
/// be done next. `nonce` is the number that goes into the greeting.
///
/// - Not started: the attempt begins with opening a connection.
/// - Connecting: once connected, the greeting is sent and the peer's
///   greeting awaited; a failed connect ends the attempt.
/// - Awaiting the peer's greeting: a greeting with an accepted version is
///   answered with the acknowledgement; any other reply, a frame that does
///   not decode, a timeout or a transport failure ends the attempt.
/// - Awaiting the peer's acknowledgement: an acknowledgement completes the
///   attempt; another message leaves it partially complete; a frame that
///   does not decode, a timeout or a transport failure ends it.
/// - Over: nothing changes any more.
///
/// An event that does not fit the stage ends an attempt that is not over.
pub open spec fn next(h: HandshakeView, event: EventView, nonce: u64) -> (HandshakeView, StepView) {
    match h.stage {
        StageView::Idle => match event {
            EventView::Start => (
                h.at(StageView::Connecting),
                StepView::Connect { address: h.target(), timeout_millis: h.timeout_millis },
            ),
            _ => failed_with(h, unexpected()),
        },
        StageView::Connecting => match event {
            EventView::Connected { now } => (
                h.at(StageView::AwaitingVersion),
                StepView::Exchange {
                    frame: version_frame(h.target(), now, nonce),
                    timeout_millis: h.timeout_millis,
                },
            ),
            EventView::ConnectFailed(detail) => failed_with(
                h,
                ErrorView::CustomError("connection error: "@ + detail),
            ),
            _ => failed_with(h, unexpected()),
        },
        StageView::AwaitingVersion => match event {
            EventView::SendFailed(detail) => failed_with(h, ErrorView::IoError(detail)),
            EventView::Read(outcome) => match received(outcome, "version message"@) {
                Err(e) => failed_with(h, e),
                Ok(reply) => match version_verdict(reply) {
                    Err(e) => failed_with(h, e),
                    Ok(()) => (
                        h.at(StageView::AwaitingVerack),
                        StepView::Exchange {
                            frame: verack_frame(),
                            timeout_millis: h.timeout_millis,
                        },
                    ),
                },
            },
            _ => failed_with(h, unexpected()),
        },
        StageView::AwaitingVerack => match event {
            EventView::SendFailed(detail) => failed_with(h, ErrorView::IoError(detail)),
            EventView::Read(outcome) => match received(outcome, "acknowledge"@) {
                Err(e) => failed_with(h, e),
                Ok(reply) => (h.at(verack_verdict(reply)), StepView::Close),
            },
            _ => failed_with(h, unexpected()),
        },
        StageView::Succeeded | StageView::Failed(_) | StageView::Partial(_) => (h, StepView::Done),
    }
}

/// Takes the attempt one step further: writes into the record what the
/// event means for it, and says what is to be done next.
pub fn shake_my_hand(handshake: &mut BitcoinHandshake, event: HandshakeEvent) -> (step:
    HandshakeStep)
    ensures
        exists|nonce: u64| #[trigger] next(old(handshake)@, event@, nonce) == (final(handshake)@, step@),
{
    let ghost before = handshake@;
    let ghost happened = event@;
    let timeout_millis = handshake.timeout_millis();
    let target = handshake.target();
    match handshake.stage() {
        HandshakeStage::Idle => match event {
            HandshakeEvent::Start => {
                handshake.set_stage(HandshakeStage::Connecting);
                let step = HandshakeStep::Connect { address: target, timeout_millis };
                assert(next(before, happened, 0) == (handshake@, step@));
                step
            },
            _ => {
                let step = HandshakeStep::Abort(reject(handshake));
                assert(next(before, happened, 0) == (handshake@, step@));
                step
            },
        },
        HandshakeStage::Connecting => match event {
            HandshakeEvent::Connected { now } => {
                let frame = send_msg_version(&target, now);
                handshake.set_stage(HandshakeStage::AwaitingVersion);
                let step = HandshakeStep::Exchange { frame, timeout_millis };
                proof {
                    let nonce = choose|nonce: u64|
                        frame@ == #[trigger] version_frame(target, now, nonce);
                    assert(next(before, happened, nonce) == (handshake@, step@));
                }
                step
            },
            HandshakeEvent::ConnectFailed(detail) => {
                let text = String::from_str("connection error: ").concat(detail.as_str());
                let step = HandshakeStep::Abort(fail(handshake, Error::CustomError(text)));
                assert(next(before, happened, 0) == (handshake@, step@));
                step
            },
            _ => {
                let step = HandshakeStep::Abort(reject(handshake));
                assert(next(before, happened, 0) == (handshake@, step@));
                step
            },
        },
        HandshakeStage::AwaitingVersion => match event {
            HandshakeEvent::SendFailed(detail) => {
                let step = HandshakeStep::Abort(fail(handshake, Error::IoError(detail)));
                assert(next(before, happened, 0) == (handshake@, step@));
                step
            },
            HandshakeEvent::Read(outcome) => {
                let step = match receive_msg(handshake, outcome, "version message") {
                    Err(e) => HandshakeStep::Abort(e),
                    Ok(reply) => match handle_version_msg(handshake, &reply) {
                        Err(e) => HandshakeStep::Abort(e),
                        Ok(()) => HandshakeStep::Exchange {
                            frame: send_msg_verack(),
                            timeout_millis,
                        },
                    },
                };
                assert(next(before, happened, 0) == (handshake@, step@));
                step
            },
            _ => {
                let step = HandshakeStep::Abort(reject(handshake));
                assert(next(before, happened, 0) == (handshake@, step@));
                step
            },
        },
        HandshakeStage::AwaitingVerack => match event {
            HandshakeEvent::SendFailed(detail) => {
                let step = HandshakeStep::Abort(fail(handshake, Error::IoError(detail)));
                assert(next(before, happened, 0) == (handshake@, step@));
                step
            },
            HandshakeEvent::Read(outcome) => {
                let step = match receive_msg(handshake, outcome, "acknowledge") {
                    Err(e) => HandshakeStep::Abort(e),
                    Ok(reply) => match handle_verack_msg(handshake, &reply) {
                        Err(e) => HandshakeStep::Abort(e),
                        Ok(()) => HandshakeStep::Close,
                    },
                };
                assert(next(before, happened, 0) == (handshake@, step@));
                step
            },
            _ => {
                let step = HandshakeStep::Abort(reject(handshake));
                assert(next(before, happened, 0) == (handshake@, step@));
                step
            },
        },
        _ => {
            let step = HandshakeStep::Done;
            assert(next(before, happened, 0) == (handshake@, step@));
            step
        },
    }
}

/// Sets up the run over the peers of `dns_seed_node`: the addresses that
/// the lookup of its name yielded, each to be attempted on `port` with
/// `timeout_millis` for every step. A lookup that failed or timed out gives
/// a run without attempts.
pub fn start_handshakes(
    dns_seed_node: String,
    port: u16,
    timeout_millis: u64,
    lookup: LookupOutcome,
) -> (run: Campaign)
    ensures
        run@ == CampaignView::start(dns_seed_node@, port, timeout_millis, lookup@.addresses()),
{
    let name_resolver = DnsNameResolver::with_timeout_millis(dns_seed_node.clone(), timeout_millis);
    let ip_address_list = name_resolver.resolve_names(lookup);
    Campaign::new(dns_seed_node, port, timeout_millis, ip_address_list)
}

} // verus!
