//! A signing node: it holds one share of each key and signs its part.

pub mod handler;
pub mod node_signer;
pub mod startup;
