//! The two roles of a threshold signature, for implementations to fill.

use vstd::prelude::*;
use crate::error::SunderError;
use crate::types::{CombinedSigResponse, PartialSigResponse};

verus! {

/// A holder of key shares that signs its part of a message.
pub trait Signer: Send + Sync {
    fn partial_sign(
        &self,
        key_name: &str,
        message: &[u8],
        label: &[u8],
    ) -> Result<PartialSigResponse, SunderError>;
}

/// A combiner of partial signatures into one threshold signature.
pub trait Assembler: Send + Sync {
    fn assemble(
        &self,
        key_name: &str,
        message: &[u8],
        partial_sigs: Vec<PartialSigResponse>,
    ) -> Result<CombinedSigResponse, SunderError>;
}

} // verus!
