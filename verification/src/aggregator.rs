//! The aggregator: it asks every node for a share, keeps the valid shares
//! of the first `threshold` nodes, in node order, that sent one, and
//! combines them.

pub mod assembler;
pub mod handler;
pub mod startup;
