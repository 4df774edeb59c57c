//! What a peer's reply means for the attempt.

use vstd::prelude::*;
use vstd::string::StringExecFns;

use crate::codec::frame::{decode, parse_frame};
use crate::error::{Error, ErrorView};
use crate::handshake::btc_handshake::{BitcoinHandshake, HandshakeStage, HandshakeView, StageView};
use crate::messages::version::PROTOCOL_VERSION;
use crate::messages::{MessageView, NetworkMessage};

verus! {

/// How an attempt to read one frame from the peer ended.
#[derive(Debug)]
pub enum ReadOutcome {
    /// The bytes that came: one frame, or less where the stream ended first.
    Frame(Vec<u8>),
    /// Reading failed; the text is the transport's own.
    Failed(String),
    /// No frame was complete within the timeout.
    TimedOut,
}

/// A [`ReadOutcome`] with its bytes and text as sequences.
pub enum ReadOutcomeView {
    Frame(Seq<u8>),
    Failed(Seq<char>),
    TimedOut,
}

impl View for ReadOutcome {
    type V = ReadOutcomeView;

    open spec fn view(&self) -> ReadOutcomeView {
        match self {
            ReadOutcome::Frame(bytes) => ReadOutcomeView::Frame(bytes@),
            ReadOutcome::Failed(detail) => ReadOutcomeView::Failed(detail@),
            ReadOutcome::TimedOut => ReadOutcomeView::TimedOut,
        }
    }
}

/// The error of a step that came at the wrong time.
pub open spec fn unexpected() -> ErrorView {
    ErrorView::CustomError("unexpected event"@)
}

/// The record after a step that came at the wrong time: an attempt that is
/// over stays as it is, and any other has failed by it.
pub open spec fn out_of_turn(h: HandshakeView) -> HandshakeView {
    if h.state().is_terminal() {
        h
    } else {
        h.at(StageView::Failed(unexpected().reason()))
    }
}

/// The message that a read brought, or the error that it comes to: a frame
/// that does not decode, a failed read, or a timeout while `cmd` was awaited.
pub open spec fn received(outcome: ReadOutcomeView, cmd: Seq<char>) -> Result<
    MessageView,
    ErrorView,
> {
    match outcome {
        ReadOutcomeView::Frame(bytes) => match parse_frame(bytes) {
            Ok(message) => Ok(message),
            Err(e) => Err(ErrorView::Encode(e)),
        },
        ReadOutcomeView::Failed(detail) => Err(ErrorView::IoError(detail)),
        ReadOutcomeView::TimedOut => Err(ErrorView::CustomError("timed out waiting for "@ + cmd)),
    }
}

/// What the peer's first reply means: a greeting with a version that this
/// client accepts lets the handshake go on; anything else ends it.
pub open spec fn version_verdict(reply: MessageView) -> Result<(), ErrorView> {
    match reply {
        MessageView::Version(version) => if version.version < PROTOCOL_VERSION {
            Err(ErrorView::CustomError("version mismatch: peer too low"@))
        } else {
            Ok(())
        },
        MessageView::Verack => Err(
            ErrorView::CustomError("peer sent acknowledge before version"@),
        ),
        MessageView::Other { .. } => Err(
            ErrorView::CustomError("peer did not respond with version"@),
        ),
    }
}

/// Where the peer's second reply leaves the attempt: an acknowledgement
/// completes it; anything else leaves it partially complete, with the name
/// of what came.
pub open spec fn verack_verdict(reply: MessageView) -> StageView {
    match reply {
        MessageView::Verack => StageView::Succeeded,
        _ => StageView::Partial("peer skipped acknowledge: got "@ + reply.command()),
    }
}

/// Whether a reply is awaited at this stage.
pub open spec fn awaits_reply(stage: StageView) -> bool {
    stage is AwaitingVersion || stage is AwaitingVerack
}

/// The record and the result after a read: while a reply is awaited, the
/// message that came, or the failure, which the record then shows; at any
/// other stage the read came out of turn.
pub open spec fn after_receive(h: HandshakeView, outcome: ReadOutcomeView, cmd: Seq<char>) -> (
    HandshakeView,
    Result<MessageView, ErrorView>,
) {
    if !awaits_reply(h.stage) {
        (out_of_turn(h), Err(unexpected()))
    } else {
        match received(outcome, cmd) {
            Ok(message) => (h, Ok(message)),
            Err(e) => (h.at(StageView::Failed(e.reason())), Err(e)),
        }
    }
}

/// The record and the result after the peer's first reply was judged. For
/// a record that does not await the peer's greeting it came out of turn.
pub open spec fn after_version(h: HandshakeView, reply: MessageView) -> (
    HandshakeView,
    Result<(), ErrorView>,
) {
    if !(h.stage is AwaitingVersion) {
        (out_of_turn(h), Err(unexpected()))
    } else {
        match version_verdict(reply) {
            Ok(()) => (h.at(StageView::AwaitingVerack), Ok(())),
            Err(e) => (h.at(StageView::Failed(e.reason())), Err(e)),
        }
    }
}

/// The record and the result after the peer's second reply was judged. For
/// a record that does not await the peer's acknowledgement it came out of
/// turn.
pub open spec fn after_verack(h: HandshakeView, reply: MessageView) -> (
    HandshakeView,
    Result<(), ErrorView>,
) {
    if !(h.stage is AwaitingVerack) {
        (out_of_turn(h), Err(unexpected()))
    } else {
        (h.at(verack_verdict(reply)), Ok(()))
    }
}

/// Marks the attempt as failed with `error`, and hands the error on.
pub(crate) fn fail(handshake: &mut BitcoinHandshake, error: Error) -> (same: Error)
    ensures
        same@ == error@,
        final(handshake)@ == old(handshake)@.at(StageView::Failed(error@.reason())),
{
    handshake.set_stage(HandshakeStage::Failed(error.reason()));
    error
}

/// Takes in a step that came at the wrong time: an attempt that is not over
/// has failed by it. Hands out the error.
pub(crate) fn reject(handshake: &mut BitcoinHandshake) -> (error: Error)
    ensures
        error@ == unexpected(),
        final(handshake)@ == out_of_turn(old(handshake)@),
{
    let over = match handshake.stage() {
        HandshakeStage::Succeeded | HandshakeStage::Failed(_) | HandshakeStage::Partial(_) => true,
        _ => false,
    };
    let error = Error::CustomError(String::from_str("unexpected event"));
    if over {
        error
    } else {
        fail(handshake, error)
    }
}

/// Takes in what a read brought while `cmd` was awaited: the decoded
/// message, or the error, which is also written into the record. A read
/// that comes while no reply is awaited is an error, and ends an attempt
/// that is not over.
pub fn receive_msg(handshake: &mut BitcoinHandshake, outcome: ReadOutcome, cmd: &str) -> (result:
    Result<NetworkMessage, Error>)
    ensures
        final(handshake)@ == after_receive(old(handshake)@, outcome@, cmd@).0,
        match (result, after_receive(old(handshake)@, outcome@, cmd@).1) {
            (Ok(message), Ok(expected)) => message@ == expected,
            (Err(error), Err(expected)) => error@ == expected,
            _ => false,
        },
{
    let awaited = match handshake.stage() {
        HandshakeStage::AwaitingVersion | HandshakeStage::AwaitingVerack => true,
        _ => false,
    };
    if !awaited {
        return Err(reject(handshake));
    }
    match outcome {
        ReadOutcome::Frame(bytes) => match decode(bytes.as_slice()) {
            Ok(message) => Ok(message),
            Err(e) => Err(fail(handshake, Error::Encode(e))),
        },
        ReadOutcome::Failed(detail) => Err(fail(handshake, Error::IoError(detail))),
        ReadOutcome::TimedOut => {
            let text = String::from_str("timed out waiting for ").concat(cmd);
            Err(fail(handshake, Error::CustomError(text)))
        },
    }
}

/// Judges the peer's first reply and writes the verdict into the record.
/// A reply that comes while none is awaited is an error, and ends an
/// attempt that is not over.
pub fn handle_version_msg(handshake: &mut BitcoinHandshake, reply: &NetworkMessage) -> (result:
    Result<(), Error>)
    ensures
        final(handshake)@ == after_version(old(handshake)@, reply@).0,
        match (result, after_version(old(handshake)@, reply@).1) {
            (Ok(()), Ok(())) => true,
            (Err(error), Err(expected)) => error@ == expected,
            _ => false,
        },
{
    match handshake.stage() {
        HandshakeStage::AwaitingVersion => {},
        _ => { return Err(reject(handshake)); },
    }
    match reply {
        NetworkMessage::Version(version) => {
            if version.version < PROTOCOL_VERSION {
                let text = String::from_str("version mismatch: peer too low");
                Err(fail(handshake, Error::CustomError(text)))
            } else {
                handshake.set_stage(HandshakeStage::AwaitingVerack);
                Ok(())
            }
        },
        NetworkMessage::Verack => {
            let text = String::from_str("peer sent acknowledge before version");
            Err(fail(handshake, Error::CustomError(text)))
        },
        NetworkMessage::Other { .. } => {
            let text = String::from_str("peer did not respond with version");
            Err(fail(handshake, Error::CustomError(text)))
        },
    }
}

/// Judges the peer's second reply and writes the verdict into the record.
/// A reply other than an acknowledgement is no error. A reply that comes
/// while none is awaited is one, and ends an attempt that is not over.
pub fn handle_verack_msg(handshake: &mut BitcoinHandshake, reply: &NetworkMessage) -> (result:
    Result<(), Error>)
    ensures
        final(handshake)@ == after_verack(old(handshake)@, reply@).0,
        match (result, after_verack(old(handshake)@, reply@).1) {
            (Ok(()), Ok(())) => true,
            (Err(error), Err(expected)) => error@ == expected,
            _ => false,
        },
{
    match handshake.stage() {
        HandshakeStage::AwaitingVerack => {},
        _ => { return Err(reject(handshake)); },
    }
    match reply {
        NetworkMessage::Verack => {
            handshake.set_stage(HandshakeStage::Succeeded);
        },
        _ => {
            let name = reply.command();
            let text = String::from_str("peer skipped acknowledge: got ").concat(name.as_str());
            handshake.set_stage(HandshakeStage::Partial(text));
        },
    }
    Ok(())
}

} // verus!
