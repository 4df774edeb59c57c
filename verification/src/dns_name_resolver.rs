//! From a seed's name to the addresses of its peers.

use vstd::prelude::*;
use vstd::string::{StrSliceExecFns, StringExecFns};

use crate::address::IpAddress;
use crate::handshake::FIVE_SECONDS;

verus! {

/// How the lookup of a seed's name ended.
#[derive(Debug)]
pub enum LookupOutcome {
    /// The answer's addresses, in the answer's order.
    Resolved(Vec<IpAddress>),
    /// The name did not resolve; the text is the resolver's own.
    Failed(String),
    /// No answer came within the timeout.
    TimedOut,
}

/// A [`LookupOutcome`] with its addresses and text as sequences.
pub enum LookupView {
    Resolved(Seq<IpAddress>),
    Failed(Seq<char>),
    TimedOut,
}

impl LookupView {
    /// The peers that a lookup yields: the answer's addresses, and none where
    /// the lookup failed or timed out.
    pub open spec fn addresses(self) -> Seq<IpAddress> {
        match self {
            LookupView::Resolved(addresses) => addresses,
            _ => Seq::empty(),
        }
    }
}

impl View for LookupOutcome {
    type V = LookupView;

    open spec fn view(&self) -> LookupView {
        match self {
            LookupOutcome::Resolved(addresses) => LookupView::Resolved(addresses@),
            LookupOutcome::Failed(detail) => LookupView::Failed(detail@),
            LookupOutcome::TimedOut => LookupView::TimedOut,
        }
    }
}

/// The name as the lookup needs it: with a dot at its end.
pub open spec fn fully_qualified(name: Seq<char>) -> Seq<char> {
    if name.len() > 0 && name.last() == '.' {
        name
    } else {
        name.push('.')
    }
}

/// Resolves one seed's name, with one lookup and a timeout.
#[derive(Debug)]
pub struct DnsNameResolver {
    dns_seed_name: String,
    /// In milliseconds; wide enough for every number of seconds.
    timeout_millis: u128,
}

/// A [`DnsNameResolver`] with its name as a character sequence.
pub struct ResolverView {
    pub dns_seed_name: Seq<char>,
    /// The timeout of the lookup, in milliseconds.
    pub timeout_millis: u128,
}

impl View for DnsNameResolver {
    type V = ResolverView;

    closed spec fn view(&self) -> ResolverView {
        ResolverView { dns_seed_name: self.dns_seed_name@, timeout_millis: self.timeout_millis }
    }
}

impl DnsNameResolver {
    /// A resolver for `dns_seed_name` whose lookup may take `timeout`
    /// seconds. Without a timeout of its own it gets five seconds.
    pub fn new(dns_seed_name: String, timeout: Option<u64>) -> (resolver: DnsNameResolver)
        ensures
            resolver@.dns_seed_name == dns_seed_name@,
            resolver@.timeout_millis == match timeout {
                Some(seconds) => 1000 * seconds,
                None => FIVE_SECONDS as int,
            },
    {
        DnsNameResolver {
            dns_seed_name,
            timeout_millis: if let Some(seconds) = timeout {
                1000 * (seconds as u128)
            } else {
                FIVE_SECONDS as u128
            },
        }
    }

    /// A resolver for `dns_seed_name` whose lookup may take `millis`
    /// milliseconds.
    pub fn with_timeout_millis(dns_seed_name: String, millis: u64) -> (resolver: DnsNameResolver)
        ensures
            resolver@.dns_seed_name == dns_seed_name@,
            resolver@.timeout_millis == millis,
    {
        DnsNameResolver { dns_seed_name, timeout_millis: millis as u128 }
    }

    /// The timeout of the lookup, in milliseconds.
    pub fn timeout_millis(&self) -> (millis: u128)
        ensures
            millis == self@.timeout_millis,
    {
        self.timeout_millis
    }

    /// The name to look up: the seed's name, with a dot at its end.
    pub fn lookup_name(&self) -> (name: String)
        ensures
            name@ == fully_qualified(self@.dns_seed_name),
    {
        let given = self.dns_seed_name.as_str();
        let len = given.unicode_len();
        if len > 0 && given.get_char(len - 1) == '.' {
            self.dns_seed_name.clone()
        } else {
            proof {
                reveal_strlit(".");
            }
            let name = self.dns_seed_name.clone().concat(".");
            name
        }
    }

    /// The peers that the lookup yields: all addresses of the answer, in its
    /// order, and none where the lookup failed or timed out.
    pub fn resolve_names(&self, outcome: LookupOutcome) -> (ip_list: Vec<IpAddress>)
        ensures
            ip_list@ == outcome@.addresses(),
    {
        match outcome {
            LookupOutcome::Resolved(addresses) => addresses,
            _ => Vec::new(),
        }
    }
}

} // verus!
