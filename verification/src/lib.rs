//! Handshake client for a peer-to-peer network: seed resolution results are
//! turned into per-peer handshake records, each driven through the
//! version / acknowledge exchange by a verified state machine.

use vstd::prelude::*;

pub mod address;
pub mod codec;
pub mod dns_name_resolver;
pub mod error;
pub mod handshake;
pub mod messages;
pub mod parse_args;
pub mod text;

verus! {

/// Seeds to turn to where none is named.
pub const DEFAULT_SEED_NODES: [&'static str; 4] = [
    "mx.jamestrev.com.",
    "mail.saxrag.com",
    "seed.btc.petertodd.org.",
    "seed.bitcoin.sipa.be.",
];

} // verus!
