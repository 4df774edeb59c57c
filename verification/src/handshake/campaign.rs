//! The run over the addresses of one seed, and its tally.

use vstd::prelude::*;

use crate::address::IpAddress;
use crate::handshake::btc_handshake::{
    BitcoinHandshake, BitcoinHandshakeState, HandshakeView, StageView, StateView,
};

verus! {

/// How the attempts of one run ended.
#[derive(Clone, Copy, Debug, PartialEq, Eq, Structural)]
pub struct Summary {
    /// Attempts that ended in `Success`.
    pub success: usize,
    /// Attempts that ended in `PartiallyComplete`.
    pub partial: usize,
    /// Attempts that ended in `Failed`, or that were given up before they
    /// ended.
    pub failed: usize,
}

impl Summary {
    /// The number of attempts counted.
    pub open spec fn total(self) -> int {
        self.success + self.partial + self.failed
    }

    /// The tally with one more attempt that ended in `state`, in numbers
    /// without bound: success, partial, failed.
    pub open spec fn counted(self, state: StateView) -> (int, int, int) {
        match state {
            StateView::Success => (self.success + 1, self.partial as int, self.failed as int),
            StateView::PartiallyComplete(_) => (
                self.success as int,
                self.partial + 1,
                self.failed as int,
            ),
            _ => (self.success as int, self.partial as int, self.failed + 1),
        }
    }

    /// The tally's three numbers: success, partial, failed.
    pub open spec fn numbers(self) -> (int, int, int) {
        (self.success as int, self.partial as int, self.failed as int)
    }

    /// The tally of a run without attempts.
    pub fn new() -> (empty: Summary)
        ensures
            empty == (Summary { success: 0, partial: 0, failed: 0 }),
    {
        Summary { success: 0, partial: 0, failed: 0 }
    }
}

/// A run over the addresses of one seed: which address is next, and the
/// tally so far. Attempts are handed out in the order of the addresses, and
/// every attempt is counted once it is over.
#[derive(Debug)]
pub struct Campaign {
    dns_seed_node: String,
    port: u16,
    timeout_millis: u64,
    addresses: Vec<IpAddress>,
    attempted: usize,
    summary: Summary,
}

/// A [`Campaign`] with its text and addresses as sequences.
pub struct CampaignView {
    pub dns_seed_node: Seq<char>,
    pub port: u16,
    pub timeout_millis: u64,
    pub addresses: Seq<IpAddress>,
    /// The number of attempts handed out.
    pub attempted: nat,
    pub summary: Summary,
}

impl CampaignView {
    /// No more attempts were counted than handed out, and no more handed out
    /// than there are addresses.
    pub open spec fn wf(self) -> bool {
        0 <= self.summary.total() <= self.attempted <= self.addresses.len()
    }

    /// The number of attempts handed out and not counted yet.
    pub open spec fn outstanding(self) -> int {
        self.attempted - self.summary.total()
    }

    /// Whether every address was attempted and every attempt counted.
    pub open spec fn finished(self) -> bool {
        self.attempted == self.addresses.len() && self.outstanding() == 0
    }

    /// The record of the attempt on the address that is next.
    pub open spec fn upcoming(self) -> HandshakeView {
        HandshakeView {
            dns_name: self.dns_seed_node,
            ip_addr: self.addresses[self.attempted as int],
            port: self.port,
            timeout_millis: self.timeout_millis,
            stage: StageView::Idle,
        }
    }

    /// The run after the next attempt was handed out, and that attempt's
    /// record; where every address was attempted, the run as it is and no
    /// record.
    pub open spec fn handed_out(self) -> (CampaignView, Option<HandshakeView>) {
        if self.attempted < self.addresses.len() {
            (CampaignView { attempted: self.attempted + 1, ..self }, Some(self.upcoming()))
        } else {
            (self, None)
        }
    }

    /// The tally after an attempt that ended in `state` was counted. Only an
    /// attempt that was handed out and not counted yet can be counted.
    pub open spec fn counts(self, before: CampaignView, state: StateView) -> bool {
        if before.outstanding() > 0 {
            &&& self.summary.numbers() == before.summary.counted(state)
            &&& self == (CampaignView { summary: self.summary, ..before })
        } else {
            self == before
        }
    }

    /// The run at its start.
    pub open spec fn start(
        dns_seed_node: Seq<char>,
        port: u16,
        timeout_millis: u64,
        addresses: Seq<IpAddress>,
    ) -> CampaignView {
        CampaignView {
            dns_seed_node,
            port,
            timeout_millis,
            addresses,
            attempted: 0,
            summary: Summary { success: 0, partial: 0, failed: 0 },
        }
    }
}

impl View for Campaign {
    type V = CampaignView;

    closed spec fn view(&self) -> CampaignView {
        CampaignView {
            dns_seed_node: self.dns_seed_node@,
            port: self.port,
            timeout_millis: self.timeout_millis,
            addresses: self.addresses@,
            attempted: self.attempted as nat,
            summary: self.summary,
        }
    }
}

impl Campaign {
    #[verifier::type_invariant]
    spec fn inv(self) -> bool {
        self@.wf()
    }

    /// A run over `addresses`, with nothing attempted yet.
    pub fn new(dns_seed_node: String, port: u16, timeout_millis: u64, addresses: Vec<IpAddress>) -> (run:
        Campaign)
        ensures
            run@ == CampaignView::start(dns_seed_node@, port, timeout_millis, addresses@),
            run@.wf(),
    {
        Campaign {
            dns_seed_node,
            port,
            timeout_millis,
            addresses,
            attempted: 0,
            summary: Summary::new(),
        }
    }

    /// The tally so far.
    pub fn summary(&self) -> (summary: Summary)
        ensures
            summary == self@.summary,
            self@.wf(),
    {
        proof {
            use_type_invariant(self);
        }
        self.summary
    }

    /// The number of attempts handed out and not counted yet.
    pub fn outstanding(&self) -> (n: usize)
        ensures
            n == self@.outstanding(),
    {
        proof {
            use_type_invariant(self);
        }
        self.attempted - self.summary.success - self.summary.partial - self.summary.failed
    }

    /// Whether every address was attempted and every attempt counted.
    pub fn is_finished(&self) -> (finished: bool)
        ensures
            finished == self@.finished(),
    {
        proof {
            use_type_invariant(self);
        }
        self.attempted == self.addresses.len() && self.outstanding() == 0
    }

    /// Hands out the record for the attempt on the next address, or nothing
    /// when every address was attempted.
    pub fn next_handshake(&mut self) -> (record: Option<BitcoinHandshake>)
        ensures
            final(self)@ == old(self)@.handed_out().0,
            match (record, old(self)@.handed_out().1) {
                (Some(fresh), Some(upcoming)) => fresh@ == upcoming,
                (None, None) => true,
                _ => false,
            },
    {
        proof {
            use_type_invariant(&*self);
        }
        if self.attempted < self.addresses.len() {
            let fresh = BitcoinHandshake::new(
                self.dns_seed_node.clone(),
                self.addresses[self.attempted],
                self.port,
                Some(self.timeout_millis),
            );
            self.attempted = self.attempted + 1;
            Some(fresh)
        } else {
            None
        }
    }

    /// Counts an attempt that is over: under success, partial or failed, by
    /// its state. An attempt that was given up before it ended counts as
    /// failed. Where no attempt is outstanding, nothing is counted, and the
    /// answer is no.
    pub fn record(&mut self, state: &BitcoinHandshakeState) -> (counted: bool)
        ensures
            counted == (old(self)@.outstanding() > 0),
            final(self)@.counts(old(self)@, state@),
    {
        proof {
            use_type_invariant(&*self);
        }
        if self.outstanding() == 0 {
            return false;
        }
        match state {
            BitcoinHandshakeState::Success => {
                self.summary.success = self.summary.success + 1;
            },
            BitcoinHandshakeState::PartiallyComplete(_) => {
                self.summary.partial = self.summary.partial + 1;
            },
            _ => {
                self.summary.failed = self.summary.failed + 1;
            },
        }
        true
    }
}

} // verus!
