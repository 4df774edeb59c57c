//! What a run is asked to do.

use vstd::prelude::*;
use vstd::string::StringExecFns;

use crate::handshake::{FIVE_SECONDS, PORT_BITCOIN};
use crate::text::{decimal, push_decimal};

verus! {

/// The arguments of one run.
#[derive(Clone, Debug, PartialEq, Eq)]
pub struct SeedArgs {
    /// The name of the seed whose peers are attempted.
    pub dns_seed_name: String,
    /// The port on which each peer is attempted.
    pub port: u16,
    /// The timeout of every step, in milliseconds.
    pub timeout: u64,
}

/// A [`SeedArgs`] with its name as a character sequence.
pub struct SeedArgsView {
    pub dns_seed_name: Seq<char>,
    pub port: u16,
    pub timeout: u64,
}

impl SeedArgsView {
    /// The line that announces the run.
    pub open spec fn text(self) -> Seq<char> {
        "Attempting handshakes with "@ + self.dns_seed_name + ":"@ + decimal(self.port as nat)
            + "  Timeout = "@ + decimal(self.timeout as nat) + " ms"@
    }
}

impl View for SeedArgs {
    type V = SeedArgsView;

    open spec fn view(&self) -> SeedArgsView {
        SeedArgsView {
            dns_seed_name: self.dns_seed_name@,
            port: self.port,
            timeout: self.timeout,
        }
    }
}

impl SeedArgs {
    /// The arguments of a run on `dns_seed_name`. Where no port is given it
    /// is the main network's, and where no timeout is given it is five
    /// seconds.
    pub fn new(dns_seed_name: String, port: Option<u16>, timeout: Option<u64>) -> (args: SeedArgs)
        ensures
            args@ == (SeedArgsView {
                dns_seed_name: dns_seed_name@,
                port: match port {
                    Some(port) => port,
                    None => PORT_BITCOIN,
                },
                timeout: match timeout {
                    Some(millis) => millis,
                    None => FIVE_SECONDS,
                },
            }),
    {
        SeedArgs {
            dns_seed_name,
            port: match port {
                Some(port) => port,
                None => PORT_BITCOIN,
            },
            timeout: match timeout {
                Some(millis) => millis,
                None => FIVE_SECONDS,
            },
        }
    }

    /// The line that announces the run.
    pub fn to_string(&self) -> (text: String)
        ensures
            text@ == self@.text(),
    {
        let mut text = String::from_str("Attempting handshakes with ");
        text.append(self.dns_seed_name.as_str());
        text.append(":");
        push_decimal(&mut text, self.port as u64);
        text.append("  Timeout = ");
        push_decimal(&mut text, self.timeout);
        text.append(" ms");
        text
    }
}

} // verus!
