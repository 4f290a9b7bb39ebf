//! The client of an aggregator: the requests it sends and how it reads
//! the answers.

use vstd::prelude::*;
use crate::aggregator::handler::VerifyRequest;
use crate::error::SunderError;
use crate::hex_codec::{encode_hex, hex_decode, hex_encode, hex_valid, lemma_hex_roundtrip};
use crate::text::{concat2, concat3};
use crate::types::{CombinedSigResponse, SignRequest};

verus! {

/// `s` without the slashes it ends in.
pub open spec fn trim_trailing_slashes(s: Seq<char>) -> Seq<char>
    decreases s.len(),
{
    if s.len() > 0 && s.last() == '/' {
        trim_trailing_slashes(s.drop_last())
    } else {
        s
    }
}

/// What came back for a sign request.
#[derive(Debug, PartialEq, Eq)]
pub enum SignReply {
    /// The request did not get through; the transport's description.
    Unreachable(String),
    /// The aggregator refused: its status line and its body.
    Refused { status: String, body: String },
    /// The aggregator accepted: its answer, or why the answer did not parse.
    Accepted(Result<CombinedSigResponse, String>),
}

/// What came back for a verify request.
#[derive(Debug, PartialEq, Eq)]
pub enum VerifyReply {
    /// The request did not get through; the transport's description.
    Unreachable(String),
    /// The answer's `valid` field, if it holds a boolean, or why the answer
    /// did not parse.
    Answered(Result<Option<bool>, String>),
}

/// A client of the aggregator at `base_url`.
#[derive(Debug, Clone, PartialEq, Eq)]
pub struct SunderClient {
    pub base_url: String,
}

impl SunderClient {
    /// A client of the aggregator at `base_url`, kept without trailing
    /// slashes.
    pub fn new(base_url: &str) -> (c: Self)
        ensures
            c.base_url@ == trim_trailing_slashes(base_url@),
    {
        let n = base_url.unicode_len();
        let mut k: usize = n;
        assert(base_url@.subrange(0, n as int) =~= base_url@);
        while k > 0 && base_url.get_char(k - 1) == '/'
            invariant
                k <= n,
                n == base_url@.len(),
                trim_trailing_slashes(base_url@.subrange(0, k as int)) == trim_trailing_slashes(base_url@),
            decreases k,
        {
            assert(base_url@.subrange(0, k as int).drop_last() =~= base_url@.subrange(0, k - 1));
            k = k - 1;
        }
        let kept = base_url.substring_char(0, k);
        SunderClient { base_url: String::from_str(kept) }
    }

    /// Where to send a request to sign with `key_name`, and its body: the
    /// message hex-encoded.
    pub fn sign(&self, key_name: &str, message: &[u8]) -> (r: (String, SignRequest))
        ensures
            r.0@ == self.base_url@ + "/v1/sign/"@ + key_name@,
            r.1.message@ == hex_encode(message@),
    {
        let url = concat3(self.base_url.as_str(), "/v1/sign/", key_name);
        (url, SignRequest { message: encode_hex(message) })
    }

    /// Where to send a request to check a signature, and its body: the key,
    /// the signature as given and the message hex-encoded.
    pub fn verify(&self, key_name: &str, signature_hex: &str, message: &[u8]) -> (r: (String, VerifyRequest))
        ensures
            r.0@ == self.base_url@ + "/v1/verify"@,
            r.1.key_name@ == key_name@,
            r.1.signature@ == signature_hex@,
            r.1.message@ == hex_encode(message@),
    {
        let url = concat2(self.base_url.as_str(), "/v1/verify");
        (url, VerifyRequest {
            key_name: String::from_str(key_name),
            signature: String::from_str(signature_hex),
            message: encode_hex(message),
        })
    }

    /// The result of a sign request from what came back: a request that did
    /// not get through, or whose accepted answer did not parse, fails with
    /// `Http` and that description; a refusal fails with `Http` and the
    /// status followed by `: ` and the body; a parsed answer is the result.
    pub fn sign_outcome(reply: SignReply) -> (r: Result<CombinedSigResponse, SunderError>)
        ensures
            match reply {
                SignReply::Unreachable(t) => r matches Err(e) && e matches SunderError::Http(s) && s@ == t@,
                SignReply::Refused { status, body } => r matches Err(e) && e matches SunderError::Http(s)
                    && s@ == status@ + ": "@ + body@,
                SignReply::Accepted(Ok(c)) => r == Ok::<CombinedSigResponse, SunderError>(c),
                SignReply::Accepted(Err(t)) => r matches Err(e) && e matches SunderError::Http(s) && s@ == t@,
            },
    {
        match reply {
            SignReply::Unreachable(t) => Err(SunderError::Http(t)),
            SignReply::Refused { status, body } => Err(SunderError::Http(concat3(status.as_str(), ": ", body.as_str()))),
            SignReply::Accepted(Ok(c)) => Ok(c),
            SignReply::Accepted(Err(t)) => Err(SunderError::Http(t)),
        }
    }

    /// The result of a verify request from what came back: a request that
    /// did not get through, or whose answer did not parse, fails with `Http`
    /// and that description; otherwise the signature holds only when the
    /// answer's `valid` is `true`.
    pub fn verify_outcome(reply: VerifyReply) -> (r: Result<bool, SunderError>)
        ensures
            match reply {
                VerifyReply::Unreachable(t) => r matches Err(e) && e matches SunderError::Http(s) && s@ == t@,
                VerifyReply::Answered(Err(t)) => r matches Err(e) && e matches SunderError::Http(s) && s@ == t@,
                VerifyReply::Answered(Ok(valid)) => r == Ok::<bool, SunderError>(valid == Some(true)),
            },
    {
        match reply {
            VerifyReply::Unreachable(t) => Err(SunderError::Http(t)),
            VerifyReply::Answered(Err(t)) => Err(SunderError::Http(t)),
            VerifyReply::Answered(Ok(valid)) => match valid {
                Some(v) => Ok(v),
                None => Ok(false),
            },
        }
    }
}

/// The aggregator reads back what a client sent: the body of a sign or
/// verify request carries a message that decodes to the bytes the client
/// was given.
pub proof fn lemma_aggregator_reads_message(message: Seq<u8>, message_hex: Seq<char>)
    requires
        message_hex == hex_encode(message),
    ensures
        hex_valid(message_hex),
        hex_decode(message_hex) == message,
{
    lemma_hex_roundtrip(message);
}

/// Trimming is done once and for all: the trimmed address ends in no slash,
/// is a prefix of the given one, and trimming it again changes nothing.
pub proof fn lemma_trim_idempotent(s: Seq<char>)
    ensures
        trim_trailing_slashes(trim_trailing_slashes(s)) == trim_trailing_slashes(s),
        trim_trailing_slashes(s).len() == 0 || trim_trailing_slashes(s).last() != '/',
        trim_trailing_slashes(s).is_prefix_of(s),
    decreases s.len(),
{
    if s.len() > 0 && s.last() == '/' {
        lemma_trim_idempotent(s.drop_last());
    }
}

/// Only slashes are removed, and only from the end: the trimmed address is
/// the start of the given one, every character cut off is a slash, and an
/// address that does not end in a slash is kept whole.
pub proof fn lemma_trim_removes_only_slashes(s: Seq<char>)
    ensures
        trim_trailing_slashes(s).len() <= s.len(),
        trim_trailing_slashes(s) == s.take(trim_trailing_slashes(s).len() as int),
        forall|i: int| trim_trailing_slashes(s).len() <= i < s.len() ==> s[i] == '/',
        s.len() == 0 || s.last() != '/' ==> trim_trailing_slashes(s) == s,
    decreases s.len(),
{
    if s.len() > 0 && s.last() == '/' {
        let d = s.drop_last();
        lemma_trim_removes_only_slashes(d);
        let t = trim_trailing_slashes(d);
        assert forall|i: int| t.len() <= i < s.len() implies s[i] == '/' by {
            if i < d.len() {
                assert(s[i] == d[i]);
            }
        }
        assert(t == s.take(t.len() as int)) by {
            assert(d.take(t.len() as int) =~= s.take(t.len() as int));
        }
    } else {
        assert(s.take(s.len() as int) =~= s);
    }
}

} // verus!
