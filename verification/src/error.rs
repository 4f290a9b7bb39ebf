//! The errors of the signing service and their descriptions.

use vstd::prelude::*;
use crate::text::{concat2, concat3, decimal, decimal_string};

verus! {

/// What can go wrong while signing, verifying or loading keys.
#[derive(Debug, Clone, PartialEq, Eq)]
pub enum SunderError {
    PartialSignFailed(String),
    AssemblyFailed(String),
    VerificationFailed,
    InsufficientShares { need: usize, got: usize },
    KeyNotFound(String),
    KeystoreLoad(String),
    Serialization(String),
    Http(String),
    InvalidHex(String),
    Unauthorized,
    Config(String),
}

/// The human-readable description of an error.
pub open spec fn error_text(e: SunderError) -> Seq<char> {
    match e {
        SunderError::PartialSignFailed(s) => "partial signing failed: "@ + s@,
        SunderError::AssemblyFailed(s) => "signature assembly failed: "@ + s@,
        SunderError::VerificationFailed => "signature verification failed"@,
        SunderError::InsufficientShares { need, got } =>
            "not enough partial signatures: need "@ + decimal(need as nat) + ", got "@ + decimal(got as nat),
        SunderError::KeyNotFound(s) => "key not found: '"@ + s@ + "'"@,
        SunderError::KeystoreLoad(s) => "keystore load failed: "@ + s@,
        SunderError::Serialization(s) => "serialization error: "@ + s@,
        SunderError::Http(s) => "http error: "@ + s@,
        SunderError::InvalidHex(s) => "invalid hex: "@ + s@,
        SunderError::Unauthorized => "unauthorized: invalid or missing API token"@,
        SunderError::Config(s) => "configuration error: "@ + s@,
    }
}

impl SunderError {
    /// Describes the error for a log line or an HTTP response body.
    pub fn message(&self) -> (r: String)
        ensures
            r@ == error_text(*self),
    {
        match self {
            SunderError::PartialSignFailed(s) => concat2("partial signing failed: ", s.as_str()),
            SunderError::AssemblyFailed(s) => concat2("signature assembly failed: ", s.as_str()),
            SunderError::VerificationFailed => String::from_str("signature verification failed"),
            SunderError::InsufficientShares { need, got } => {
                let need_text = decimal_string(*need as u64);
                let got_text = decimal_string(*got as u64);
                let mut r = concat2("not enough partial signatures: need ", need_text.as_str());
                r.append(", got ");
                r.append(got_text.as_str());
                r
            },
            SunderError::KeyNotFound(s) => concat3("key not found: '", s.as_str(), "'"),
            SunderError::KeystoreLoad(s) => concat2("keystore load failed: ", s.as_str()),
            SunderError::Serialization(s) => concat2("serialization error: ", s.as_str()),
            SunderError::Http(s) => concat2("http error: ", s.as_str()),
            SunderError::InvalidHex(s) => concat2("invalid hex: ", s.as_str()),
            SunderError::Unauthorized => String::from_str("unauthorized: invalid or missing API token"),
            SunderError::Config(s) => concat2("configuration error: ", s.as_str()),
        }
    }
}

} // verus!
