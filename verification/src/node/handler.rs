//! A node's answers to HTTP requests.

use vstd::prelude::*;
use crate::audit::{AuditEvent, AuditLog};
use crate::error::{error_text, SunderError};
use crate::hex_codec::{hex_decode, hex_encode, hex_valid, lemma_hex_roundtrip};
use crate::http::{decode_message, error_response, BAD_REQUEST, INTERNAL_SERVER_ERROR};
use crate::node::node_signer::{partial_sign_answer, signing_error, NodeSigner};
use crate::types::{HealthResponse, KeyInfo, PartialSigResponse, PartialSignRequest};

verus! {

/// What a node's handlers share.
pub struct AppState<S, P> {
    pub signer: NodeSigner<S, P>,
    pub audit: AuditLog,
}

/// The node's health: always `ok`, with its number and the number of key
/// shares it holds.
pub fn health<S, P>(state: &AppState<S, P>) -> (r: HealthResponse)
    ensures
        r.status@ == "ok"@,
        r.node_index == Some(state.signer.node_index),
        r.keys_loaded == state.signer.keys.names().len(),
{
    HealthResponse {
        status: String::from_str("ok"),
        node_index: Some(state.signer.node_index),
        keys_loaded: state.signer.key_count(),
    }
}

/// The key shares the node holds, as its signer lists them.
pub fn list_keys<S, P>(state: &AppState<S, P>) -> (r: Vec<KeyInfo>)
    requires
        state.signer.wf(),
    ensures
        r@.len() == state.signer.keys.names().len(),
        forall|i: int| 0 <= i < r@.len() ==> {
            let k = state.signer.keys@[state.signer.keys.names()[i]];
            &&& (#[trigger] r@[i]).name@ == state.signer.keys.names()[i]
            &&& r@[i].scheme@ == k.scheme@
            &&& r@[i].threshold == k.threshold
            &&& r@[i].share_id == k.share_id
        },
{
    state.signer.list_keys()
}

/// The message and the label that a partial signing request asks to be
/// signed: the message decoded from hex, the label as its UTF-8 bytes. A
/// message that is not hexadecimal is refused with `BAD_REQUEST`.
pub fn signing_inputs(req: &PartialSignRequest) -> (r: Result<(Vec<u8>, Vec<u8>), (u16, String)>)
    ensures
        r is Ok <==> hex_valid(req.message@),
        r matches Ok((message, label)) ==> message@ == hex_decode(req.message@)
            && label@ == vstd::utf8::encode_utf8(req.label@),
        r matches Err((status, body)) ==> status == BAD_REQUEST
            && exists|detail: Seq<char>| body@ == "invalid message hex: "@ + detail,
{
    let message = decode_message(req.message.as_str())?;
    let label = req.label.as_str().as_bytes_vec();
    Ok((message, label))
}

/// How the node answers a partial signing request whose signing ended in
/// `res`: the share on success; on failure the error's description with
/// `INTERNAL_SERVER_ERROR`, and a `SignFailed` audit event.
pub open spec fn partial_sign_reply(
    req: PartialSignRequest,
    res: Result<PartialSigResponse, SunderError>,
    r: (Option<AuditEvent>, Result<PartialSigResponse, (u16, String)>),
) -> bool {
    match res {
        Ok(p) => r.0 is None && r.1 == Ok::<PartialSigResponse, (u16, String)>(p),
        Err(e) => {
            &&& r.0 matches Some(AuditEvent::SignFailed { key_name, reason })
                && key_name@ == req.key_name@ && reason@ == error_text(e)
            &&& r.1 matches Err((status, body)) && status == INTERNAL_SERVER_ERROR
                && body@ == error_text(e)
        },
    }
}

/// The node's answer to a partial signing request, and the audit event to
/// record, if any. A message that is not hexadecimal is refused with
/// `BAD_REQUEST`, before any signing and with nothing audited. Otherwise the
/// node signs the decoded message, labelled with the label's UTF-8 bytes,
/// through `sign`, and a failure is audited.
pub fn partial_sign<S, P, F>(state: &AppState<S, P>, req: &PartialSignRequest, sign: F) -> (r: (
    Option<AuditEvent>,
    Result<PartialSigResponse, (u16, String)>,
)) where F: FnOnce(&S, &[u8], &[u8]) -> Result<Vec<u8>, SunderError>
    requires
        state.signer.wf(),
        forall|share: &S, m: &[u8], l: &[u8]| #[trigger] sign.requires((share, m, l)),
        forall|share: &S, m: &[u8], l: &[u8], out: Result<Vec<u8>, SunderError>|
            #[trigger] sign.ensures((share, m, l), out) ==> signing_error(out),
    ensures
        !hex_valid(req.message@) ==> {
            &&& r.0 is None
            &&& r.1 matches Err((status, body)) && status == BAD_REQUEST
                && exists|detail: Seq<char>| body@ == "invalid message hex: "@ + detail
        },
        hex_valid(req.message@) ==> exists|message: &[u8], label: &[u8], res: Result<PartialSigResponse, SunderError>| {
            &&& message@ == hex_decode(req.message@)
            &&& label@ == vstd::utf8::encode_utf8(req.label@)
            &&& #[trigger] partial_sign_answer(state.signer, req.key_name@, message, label, sign, res)
            &&& partial_sign_reply(*req, res, r)
        },
{
    let (message, label) = match signing_inputs(req) {
        Ok(inputs) => inputs,
        Err(refusal) => return (None, Err(refusal)),
    };
    let m: &[u8] = message.as_slice();
    let l: &[u8] = label.as_slice();
    let result = state.signer.partial_sign(req.key_name.as_str(), m, l, sign);
    let ghost res = result;
    let r = match result {
        Ok(p) => (None, Ok(p)),
        Err(e) => {
            let event = AuditEvent::SignFailed { key_name: req.key_name.clone(), reason: e.message() };
            (Some(event), Err(error_response(&e)))
        },
    };
    assert(partial_sign_answer(state.signer, req.key_name@, m, l, sign, res));
    r
}

/// A node reads back what the aggregator asked: for any request whose
/// message is the hex encoding of `message` and whose label is `key_name`
/// (as the aggregator builds them), the node's inputs are `message` itself
/// and the UTF-8 bytes of the key's name.
pub proof fn lemma_node_reads_request(key_name: Seq<char>, message: Seq<u8>, req: PartialSignRequest)
    requires
        req.message@ == hex_encode(message),
        req.label@ == key_name,
    ensures
        hex_valid(req.message@),
        hex_decode(req.message@) == message,
        vstd::utf8::encode_utf8(req.label@) == vstd::utf8::encode_utf8(key_name),
{
    lemma_hex_roundtrip(message);
}

} // verus!
