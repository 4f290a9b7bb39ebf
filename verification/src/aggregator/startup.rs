//! The aggregator's settings.

use vstd::prelude::*;

verus! {

/// How an aggregator is started.
#[derive(Debug, Clone, PartialEq, Eq)]
pub struct Args {
    /// The key store file with the public keys.
    pub keystore: String,
    /// How many partial signatures make a signature.
    pub threshold: usize,
    /// The nodes' base addresses, in node order.
    pub nodes: Vec<String>,
    /// The address to listen on.
    pub bind: String,
    /// The audit trail file.
    pub audit_log: String,
}

} // verus!
