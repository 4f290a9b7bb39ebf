//! Threshold signing service logic: the request, collection and response
//! rules of a cluster in which signing nodes each hold one key share and an
//! aggregator combines their partial signatures.

pub mod aggregator;
pub mod audit;
pub mod client;
pub mod collector;
pub mod error;
pub mod hex_codec;
pub mod http;
pub mod key_table;
pub mod keystore;
pub mod node;
pub mod signing;
pub mod text;
pub mod types;
