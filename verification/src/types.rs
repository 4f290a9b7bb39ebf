//! The messages exchanged between clients, the aggregator and the nodes.

use vstd::prelude::*;

verus! {

/// Sent by the aggregator to each node: sign this message with this key.
#[derive(Debug, Clone, PartialEq, Eq)]
pub struct PartialSignRequest {
    /// The key to sign with; the node must hold a share of it.
    pub key_name: String,
    /// The message, hex-encoded.
    pub message: String,
    /// The label of the signing operation.
    pub label: String,
}

/// A node's answer: its share of the signature.
#[derive(Debug, Clone, PartialEq, Eq)]
pub struct PartialSigResponse {
    /// The node that produced the share, counted from 1.
    pub node_index: usize,
    /// The key that was used.
    pub key_name: String,
    /// The serialized signature share, hex-encoded.
    pub data: String,
}

/// The combined threshold signature returned to the caller.
#[derive(Debug, Clone, PartialEq, Eq)]
pub struct CombinedSigResponse {
    pub key_name: String,
    /// The threshold signature, hex-encoded.
    pub signature: String,
    /// The nodes whose shares were combined, in the order collected.
    pub nodes_participated: Vec<usize>,
}

/// A caller's request to sign a message.
#[derive(Debug, Clone, PartialEq, Eq)]
pub struct SignRequest {
    /// The message, hex-encoded.
    pub message: String,
}

/// A service's health report.
#[derive(Debug, Clone, PartialEq, Eq)]
pub struct HealthResponse {
    pub status: String,
    /// The reporting node, or none for the aggregator.
    pub node_index: Option<usize>,
    pub keys_loaded: usize,
}

/// What is known of a key that a service can sign with.
#[derive(Debug, Clone, PartialEq, Eq)]
pub struct KeyInfo {
    pub name: String,
    pub scheme: String,
    pub threshold: u16,
    pub share_id: u16,
}

} // verus!
