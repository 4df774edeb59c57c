//! What holds of every handshake and of every run.

use vstd::prelude::*;

use crate::codec::frame::{encodable, frame};
use crate::codec::laws::{canonical, lemma_decode_encode};
use crate::dns_name_resolver::LookupView;
use crate::handshake::btc_handshake::{HandshakeView, StageView, StateView};
use crate::handshake::btc_message::{verack_verdict, version_verdict, ReadOutcomeView};
use crate::handshake::campaign::{CampaignView, Summary};
use crate::handshake::{next, EventView, StepView};
use crate::messages::version::PROTOCOL_VERSION;
use crate::messages::{MessageView, VersionView};

verus! {

/// The record after the peer was reached and sent `replies`, one after the
/// other, as frames: the attempt starts, connects at `now`, and every reply
/// is read in full.
pub open spec fn conversation(
    h: HandshakeView,
    now: i64,
    nonce: u64,
    replies: Seq<MessageView>,
) -> HandshakeView
    decreases replies.len(),
{
    if replies.len() == 0 {
        next(next(h, EventView::Start, nonce).0, EventView::Connected { now }, nonce).0
    } else {
        next(
            conversation(h, now, nonce, replies.drop_last()),
            EventView::Read(ReadOutcomeView::Frame(frame(replies.last()))),
            nonce,
        ).0
    }
}

/// A seed without addresses gives a run without attempts: whether the
/// lookup failed, timed out or brought an empty answer, no record is handed
/// out, the run is finished as it starts, and its tally is all zero.
pub proof fn lemma_no_addresses_no_attempts(
    dns_seed_node: Seq<char>,
    port: u16,
    timeout_millis: u64,
    lookup: LookupView,
)
    requires
        lookup.addresses().len() == 0,
    ensures
        ({
            let run = CampaignView::start(dns_seed_node, port, timeout_millis, lookup.addresses());
            &&& run.handed_out() == (run, None::<HandshakeView>)
            &&& run.finished()
            &&& run.summary == (Summary { success: 0, partial: 0, failed: 0 })
        }),
{
}

/// A lookup that failed or timed out yields no address.
pub proof fn lemma_failed_lookup_yields_nothing(lookup: LookupView)
    requires
        !(lookup is Resolved),
    ensures
        lookup.addresses().len() == 0,
{
}

/// Before any reply, a conversation has brought a fresh record to where the
/// peer's greeting is awaited.
pub proof fn lemma_conversation_opens(h: HandshakeView, now: i64, nonce: u64)
    requires
        h.stage is Idle,
    ensures
        conversation(h, now, nonce, Seq::empty()) == h.at(StageView::AwaitingVersion),
{
}

/// A conversation goes on with the next reply, read as one frame.
pub proof fn lemma_conversation_goes_on(
    h: HandshakeView,
    now: i64,
    nonce: u64,
    replies: Seq<MessageView>,
    reply: MessageView,
)
    ensures
        conversation(h, now, nonce, replies.push(reply)) == next(
            conversation(h, now, nonce, replies),
            EventView::Read(ReadOutcomeView::Frame(frame(reply))),
            nonce,
        ).0,
{
    assert(replies.push(reply).drop_last() =~= replies);
}

/// What a complete frame means while the peer's greeting is awaited: the
/// verdict on the message that it carries.
pub proof fn lemma_first_reply(h: HandshakeView, nonce: u64, reply: MessageView)
    requires
        h.stage is AwaitingVersion,
        canonical(reply),
    ensures
        next(h, EventView::Read(ReadOutcomeView::Frame(frame(reply))), nonce).0 == h.at(
            match version_verdict(reply) {
                Ok(()) => StageView::AwaitingVerack,
                Err(e) => StageView::Failed(e.reason()),
            },
        ),
{
    lemma_decode_encode(reply);
}

/// What a complete frame means while the peer's acknowledgement is awaited:
/// the verdict on the message that it carries.
pub proof fn lemma_second_reply(h: HandshakeView, nonce: u64, reply: MessageView)
    requires
        h.stage is AwaitingVerack,
        canonical(reply),
    ensures
        next(h, EventView::Read(ReadOutcomeView::Frame(frame(reply))), nonce).0 == h.at(
            verack_verdict(reply),
        ),
{
    lemma_decode_encode(reply);
}

/// A peer that answers the greeting with a greeting of an accepted version,
/// and the acknowledgement with an acknowledgement, leaves the attempt in
/// `Success`, and in no other state.
pub proof fn lemma_round_trip_succeeds(h: HandshakeView, now: i64, nonce: u64, peer: VersionView)
    requires
        h.stage is Idle,
        peer.version >= PROTOCOL_VERSION,
        encodable(MessageView::Version(peer)),
    ensures
        conversation(
            h,
            now,
            nonce,
            seq![MessageView::Version(peer), MessageView::Verack],
        ).state() == StateView::Success,
{
    reveal_strlit("verack");
    let first = MessageView::Version(peer);
    let opened = conversation(h, now, nonce, Seq::empty());
    let greeted = conversation(h, now, nonce, seq![first]);
    lemma_conversation_opens(h, now, nonce);
    lemma_conversation_goes_on(h, now, nonce, Seq::empty(), first);
    lemma_first_reply(opened, nonce, first);
    lemma_conversation_goes_on(h, now, nonce, seq![first], MessageView::Verack);
    assert(seq![first].push(MessageView::Verack) =~= seq![first, MessageView::Verack]);
    lemma_second_reply(greeted, nonce, MessageView::Verack);
}

/// A peer whose first reply is an acknowledgement fails the attempt, with a
/// reason that names the violation, whatever the timeout is.
pub proof fn lemma_early_acknowledge_fails(h: HandshakeView, now: i64, nonce: u64)
    requires
        h.stage is Idle,
    ensures
        conversation(h, now, nonce, seq![MessageView::Verack]).state() == StateView::Failed(
            "peer sent acknowledge before version"@,
        ),
{
    reveal_strlit("verack");
    let opened = conversation(h, now, nonce, Seq::empty());
    lemma_conversation_opens(h, now, nonce);
    lemma_conversation_goes_on(h, now, nonce, Seq::empty(), MessageView::Verack);
    assert(Seq::<MessageView>::empty().push(MessageView::Verack) =~= seq![MessageView::Verack]);
    lemma_first_reply(opened, nonce, MessageView::Verack);
}

/// A peer that sends a greeting of an accepted version and then anything
/// but an acknowledgement leaves the attempt in `PartiallyComplete`, with
/// the name of what it sent.
pub proof fn lemma_skipped_acknowledge_is_partial(
    h: HandshakeView,
    now: i64,
    nonce: u64,
    peer: VersionView,
    second: MessageView,
)
    requires
        h.stage is Idle,
        peer.version >= PROTOCOL_VERSION,
        encodable(MessageView::Version(peer)),
        canonical(second),
        !(second is Verack),
    ensures
        conversation(h, now, nonce, seq![MessageView::Version(peer), second]).state()
            == StateView::PartiallyComplete("peer skipped acknowledge: got "@ + second.command()),
{
    let first = MessageView::Version(peer);
    let opened = conversation(h, now, nonce, Seq::empty());
    let greeted = conversation(h, now, nonce, seq![first]);
    lemma_conversation_opens(h, now, nonce);
    lemma_conversation_goes_on(h, now, nonce, Seq::empty(), first);
    lemma_first_reply(opened, nonce, first);
    lemma_conversation_goes_on(h, now, nonce, seq![first], second);
    assert(seq![first].push(second) =~= seq![first, second]);
    lemma_second_reply(greeted, nonce, second);
}

/// An attempt that the peer left partially complete is counted as partial,
/// and as nothing else: a run that counts it has one more under partial, and
/// as many as before under success and under failed.
pub proof fn lemma_partial_is_counted_as_partial(
    run: CampaignView,
    after: CampaignView,
    h: HandshakeView,
    now: i64,
    nonce: u64,
    peer: VersionView,
    second: MessageView,
)
    requires
        h.stage is Idle,
        peer.version >= PROTOCOL_VERSION,
        encodable(MessageView::Version(peer)),
        canonical(second),
        !(second is Verack),
        run.outstanding() > 0,
        after.counts(
            run,
            conversation(h, now, nonce, seq![MessageView::Version(peer), second]).state(),
        ),
    ensures
        after.summary.numbers() == (
            run.summary.success as int,
            run.summary.partial + 1,
            run.summary.failed as int,
        ),
{
    lemma_skipped_acknowledge_is_partial(h, now, nonce, peer, second);
}

/// The tally keeps the three outcomes apart: an attempt adds one to the
/// count of its own state and leaves the other two as they were.
pub proof fn lemma_outcomes_are_counted_apart(tally: Summary, reason: Seq<char>)
    ensures
        tally.counted(StateView::Success) == (
            tally.success + 1,
            tally.partial as int,
            tally.failed as int,
        ),
        tally.counted(StateView::PartiallyComplete(reason)) == (
            tally.success as int,
            tally.partial + 1,
            tally.failed as int,
        ),
        tally.counted(StateView::Failed(reason)) == (
            tally.success as int,
            tally.partial as int,
            tally.failed + 1,
        ),
{
}

/// Silence fails the attempt: a timeout while the peer's greeting is
/// awaited, or while its acknowledgement is, ends the attempt as failed, and
/// the reason says which of the two was awaited.
pub proof fn lemma_timeout_fails(h: HandshakeView, nonce: u64)
    requires
        h.stage is AwaitingVersion || h.stage is AwaitingVerack,
    ensures
        next(h, EventView::Read(ReadOutcomeView::TimedOut), nonce).0.state() == StateView::Failed(
            if h.stage is AwaitingVersion {
                "timed out waiting for version message"@
            } else {
                "timed out waiting for acknowledge"@
            },
        ),
{
    reveal_strlit("timed out waiting for ");
    reveal_strlit("version message");
    reveal_strlit("acknowledge");
    reveal_strlit("timed out waiting for version message");
    reveal_strlit("timed out waiting for acknowledge");
    assert("timed out waiting for "@ + "version message"@
        =~= "timed out waiting for version message"@);
    assert("timed out waiting for "@ + "acknowledge"@ =~= "timed out waiting for acknowledge"@);
}

/// However an attempt ended, the run goes on: counting it changes neither
/// which address is next nor the record that is handed out for it.
pub proof fn lemma_no_outcome_stops_the_run(run: CampaignView, after: CampaignView, state: StateView)
    requires
        after.counts(run, state),
    ensures
        after.attempted == run.attempted,
        after.addresses == run.addresses,
        after.handed_out().1 == run.handed_out().1,
{
}

/// Every step that waits on the network is bounded by the record's own
/// timeout, each by itself.
pub proof fn lemma_every_wait_is_bounded(h: HandshakeView, event: EventView, nonce: u64)
    ensures
        match next(h, event, nonce).1 {
            StepView::Connect { timeout_millis, .. } => timeout_millis == h.timeout_millis,
            StepView::Exchange { timeout_millis, .. } => timeout_millis == h.timeout_millis,
            _ => true,
        },
{
}

/// No error without a record of it: where a step ends in an error, the
/// attempt is failed, and its reason is the error's.
pub proof fn lemma_abort_means_failed(h: HandshakeView, event: EventView, nonce: u64)
    ensures
        next(h, event, nonce).1 matches StepView::Abort(error) ==> next(h, event, nonce).0.state()
            == StateView::Failed(error.reason()),
{
}

/// Once an attempt is over, no event changes its record.
pub proof fn lemma_terminal_is_final(h: HandshakeView, event: EventView, nonce: u64)
    requires
        h.state().is_terminal(),
    ensures
        next(h, event, nonce) == (h, StepView::Done),
{
}

/// How far a state is along the way: not started, started, over.
pub open spec fn progress(state: StateView) -> nat {
    match state {
        StateView::NotStarted => 0,
        StateView::Started => 1,
        _ => 2,
    }
}

/// The state never goes back, and an event changes nothing of a record but
/// its stage.
pub proof fn lemma_only_forward(h: HandshakeView, event: EventView, nonce: u64)
    ensures
        next(h, event, nonce).0 == h.at(next(h, event, nonce).0.stage),
        progress(next(h, event, nonce).0.state()) >= progress(h.state()),
{
}

} // verus!
