//! The aggregator's answers to HTTP requests.

use vstd::prelude::*;
use crate::aggregator::assembler::{verify_answer, SunderAssembler};
use crate::audit::{AuditEvent, AuditLog};
use crate::error::{error_text, SunderError};
use crate::hex_codec::{hex_decode, hex_valid};
use crate::http::{decode_message, error_response, BAD_REQUEST, INTERNAL_SERVER_ERROR};
use crate::types::{CombinedSigResponse, HealthResponse, KeyInfo, SignRequest};

verus! {

/// Body of a request to check a signature.
#[derive(Debug, Clone, PartialEq, Eq)]
pub struct VerifyRequest {
    pub key_name: String,
    /// The signature, hex-encoded.
    pub signature: String,
    /// The message, hex-encoded.
    pub message: String,
}

/// Whether the signature holds.
#[derive(Debug, Clone, PartialEq, Eq)]
pub struct VerifyResponse {
    pub valid: bool,
}

/// What the aggregator's handlers share.
pub struct AppState<K> {
    pub assembler: SunderAssembler<K>,
    pub audit: AuditLog,
}

/// The aggregator's health: always `ok`, with no node index, and the number
/// of keys it can sign with.
pub fn health<K>(state: &AppState<K>) -> (r: HealthResponse)
    ensures
        r.status@ == "ok"@,
        r.node_index is None,
        r.keys_loaded == state.assembler.key_names().len(),
{
    HealthResponse {
        status: String::from_str("ok"),
        node_index: None,
        keys_loaded: state.assembler.key_count(),
    }
}

/// The keys the aggregator can sign with, as its assembler lists them.
pub fn list_keys<K>(state: &AppState<K>) -> (r: Vec<KeyInfo>)
    requires
        state.assembler.wf(),
    ensures
        r@.len() == state.assembler.key_names().len(),
        forall|i: int| 0 <= i < r@.len() ==> {
            &&& (#[trigger] r@[i]).name@ == state.assembler.key_names()[i]
            &&& r@[i].scheme@ == "bls04"@
            &&& r@[i].threshold == state.assembler.threshold as u16
            &&& r@[i].share_id == 0
        },
{
    state.assembler.list_keys()
}

/// The message a sign request asks to be signed, decoded from hex. A
/// message that is not hexadecimal is refused with `BAD_REQUEST`, before any
/// node is asked and with nothing audited.
pub fn sign_inputs(req: &SignRequest) -> (r: Result<Vec<u8>, (u16, String)>)
    ensures
        r is Ok <==> hex_valid(req.message@),
        r matches Ok(m) ==> m@ == hex_decode(req.message@),
        r matches Err((status, body)) ==> status == BAD_REQUEST
            && exists|detail: Seq<char>| body@ == "invalid message hex: "@ + detail,
{
    decode_message(req.message.as_str())
}

/// The answer to a sign request for `key_name` whose message was read by
/// `sign_inputs` and whose signing ended in `result`, and the audit event
/// that records it: on success the signature, audited with the nodes that
/// took part; on failure the error's description with
/// `INTERNAL_SERVER_ERROR`, audited with no nodes. Only a request whose
/// message is hexadecimal reaches this step.
pub fn sign(
    key_name: &str,
    req: &SignRequest,
    result: Result<CombinedSigResponse, SunderError>,
) -> (r: (AuditEvent, Result<CombinedSigResponse, (u16, String)>))
    requires
        hex_valid(req.message@),
    ensures
        r.0 matches AuditEvent::SignRequest { key_name: k, message_hex, nodes_participated, success } && {
            &&& k@ == key_name@
            &&& message_hex@ == req.message@
            &&& success == (result is Ok)
            &&& nodes_participated@ == match result {
                Ok(c) => c.nodes_participated@,
                Err(_) => Seq::<usize>::empty(),
            }
        },
        r.1 is Ok <==> result is Ok,
        r.1 matches Ok(c) ==> result == Ok::<CombinedSigResponse, SunderError>(c),
        r.1 matches Err((status, body)) ==> status == INTERNAL_SERVER_ERROR
            && body@ == error_text(result->Err_0),
{
    match result {
        Ok(combined) => {
            let nodes = combined.nodes_participated.clone();
            assert(nodes@ =~= combined.nodes_participated@);
            let event = AuditEvent::SignRequest {
                key_name: String::from_str(key_name),
                message_hex: req.message.clone(),
                nodes_participated: nodes,
                success: true,
            };
            (event, Ok(combined))
        },
        Err(e) => {
            let event = AuditEvent::SignRequest {
                key_name: String::from_str(key_name),
                message_hex: req.message.clone(),
                nodes_participated: Vec::new(),
                success: false,
            };
            (event, Err(error_response(&e)))
        },
    }
}

/// How a check's outcome is answered over HTTP.
pub open spec fn verify_reply(res: Result<bool, SunderError>, r: Result<VerifyResponse, (u16, String)>) -> bool {
    match res {
        Ok(valid) => r matches Ok(v) && v.valid == valid,
        Err(e) => r matches Err((status, body)) && status == INTERNAL_SERVER_ERROR && body@ == error_text(e),
    }
}

/// The answer to a verify request. A message that is not hexadecimal is
/// refused with `BAD_REQUEST` before anything is checked; otherwise the
/// signature is checked by the assembler through `check`, and its outcome
/// answered: whether it holds, or the error's description with
/// `INTERNAL_SERVER_ERROR`.
pub fn verify<K, F>(state: &AppState<K>, req: &VerifyRequest, check: F) -> (r: Result<VerifyResponse, (u16, String)>)
    where F: FnOnce(&K, Vec<u8>, &[u8]) -> Result<bool, SunderError>
    requires
        state.assembler.wf(),
        forall|pk: &K, sig: Vec<u8>, m: &[u8]| #[trigger] check.requires((pk, sig, m)),
    ensures
        !hex_valid(req.message@) ==> (r matches Err((status, body)) && status == BAD_REQUEST
            && exists|detail: Seq<char>| body@ == "invalid message hex: "@ + detail),
        hex_valid(req.message@) ==> exists|message: &[u8], res: Result<bool, SunderError>| {
            &&& message@ == hex_decode(req.message@)
            &&& #[trigger] verify_answer(state.assembler, req.key_name@, req.signature@, message, check, res)
            &&& verify_reply(res, r)
        },
{
    let message = match decode_message(req.message.as_str()) {
        Ok(m) => m,
        Err(refusal) => return Err(refusal),
    };
    let m: &[u8] = message.as_slice();
    let result = state.assembler.verify(req.key_name.as_str(), req.signature.as_str(), m, check);
    let ghost res = result;
    let r = match result {
        Ok(valid) => Ok(VerifyResponse { valid }),
        Err(e) => Err(error_response(&e)),
    };
    assert(verify_answer(state.assembler, req.key_name@, req.signature@, m, check, res));
    r
}

} // verus!
