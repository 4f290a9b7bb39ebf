use sunder::aggregator::assembler::SunderAssembler;
use sunder::collector::ShareCollector;
use sunder::aggregator::handler::{self as agg, AppState as AggState, VerifyRequest, VerifyResponse};
use sunder::audit::{AuditEvent, AuditLog};
use sunder::client::{SignReply, SunderClient, VerifyReply};
use sunder::error::SunderError;
use sunder::http::INTERNAL_SERVER_ERROR;
use sunder::node::handler::{self as node, AppState as NodeState};
use sunder::node::node_signer::{KeyShare, NodeSigner};
use sunder::node::startup::{startup_events, Args as NodeArgs};
use sunder::types::{CombinedSigResponse, PartialSigResponse, PartialSignRequest, SignRequest};

fn assembler() -> SunderAssembler<&'static str> {
    SunderAssembler::load(
        vec!["http://node1:9000".into(), "http://node2:9000".into()],
        3,
        vec![
            ("k1".into(), "pk1"),
            ("k2".into(), "pk2"),
            ("k1".into(), "pk1b"),
        ],
    )
}

#[test]
fn assembler_loads_keys_later_replacing_earlier() {
    let a = assembler();
    assert_eq!(a.key_count(), 2);
    assert_eq!(a.public_key("k1"), Some(&"pk1b"));
    assert_eq!(a.public_key("k2"), Some(&"pk2"));
    assert_eq!(a.public_key("k3"), None);
    let keys = a.list_keys();
    assert_eq!(keys.len(), 2);
    assert_eq!(keys[0].name, "k1");
    assert_eq!(keys[1].name, "k2");
    assert!(keys.iter().all(|k| k.scheme == "bls04" && k.threshold == 3 && k.share_id == 0));
}

#[test]
fn assembler_threshold_is_cut_to_sixteen_bits_in_listing() {
    let a: SunderAssembler<u8> = SunderAssembler::load(vec![], 65539, vec![("k".into(), 0)]);
    assert_eq!(a.list_keys()[0].threshold, 3);
}

#[test]
fn assembler_builds_node_requests() {
    let a = assembler();
    let req = a.sign_request("k2", b"hello").unwrap();
    assert_eq!(
        req,
        PartialSignRequest { key_name: "k2".into(), message: "68656c6c6f".into(), label: "k2".into() }
    );
    assert_eq!(
        a.sign_request("nope", b"hello").unwrap_err(),
        SunderError::KeyNotFound("'nope' \u{2014} available: [k1, k2]".into())
    );
    assert_eq!(
        a.partial_sign_urls(),
        vec!["http://node1:9000/partial-sign".to_string(), "http://node2:9000/partial-sign".to_string()]
    );
    assert!(a.collector::<Vec<u8>>().wants_more());
}

fn share(node: usize, data: &str) -> PartialSigResponse {
    PartialSigResponse { node_index: node, key_name: "k1".into(), data: data.into() }
}

fn accept(bytes: Vec<u8>) -> Result<Vec<u8>, SunderError> {
    Ok(bytes)
}

fn three_node_assembler() -> SunderAssembler<&'static str> {
    SunderAssembler::load(
        vec!["http://n1".into(), "http://n2".into(), "http://n3".into()],
        2,
        vec![("k1".into(), "pk1")],
    )
}

#[test]
fn assembler_signs_from_collected_shares() {
    let a = three_node_assembler();
    let mut c = a.collector();
    c.record(None, accept);
    c.record(Some(share(2, "0102")), accept);
    c.record(Some(share(3, "ff")), accept);
    let combined = a
        .sign("k1", b"hello", c, |pk: &&str, shares: Vec<Vec<u8>>, m: &[u8]| {
            assert_eq!(*pk, "pk1");
            assert_eq!(shares, vec![vec![1, 2], vec![0xff]]);
            assert_eq!(m, b"hello");
            Ok(vec![0xde, 0xad])
        })
        .unwrap();
    assert_eq!(
        combined,
        CombinedSigResponse { key_name: "k1".into(), signature: "dead".into(), nodes_participated: vec![2, 3] }
    );
}

#[test]
fn assembler_signs_past_a_bad_share() {
    let a = three_node_assembler();
    let mut c = a.collector();
    c.record(Some(share(1, "not hex")), accept);
    c.record(Some(share(2, "01")), accept);
    c.record(Some(share(3, "02")), accept);
    let combined = a
        .sign("k1", b"m", c, |_: &&str, shares: Vec<Vec<u8>>, _: &[u8]| Ok(shares.concat()))
        .unwrap();
    assert_eq!(combined.nodes_participated, vec![2, 3]);
    assert_eq!(combined.signature, "0102");
}

#[test]
fn assembler_sign_refusals() {
    let a = three_node_assembler();
    let never = |_: &&str, _: Vec<Vec<u8>>, _: &[u8]| -> Result<Vec<u8>, SunderError> { panic!("not reached") };
    let c: ShareCollector<Vec<u8>> = a.collector();
    assert_eq!(
        a.sign("nope", b"m", c, never).unwrap_err(),
        SunderError::KeyNotFound("'nope' \u{2014} available: [k1]".into())
    );
    let mut c = a.collector();
    c.record(Some(share(1, "00")), accept);
    c.record(None, accept);
    c.record(Some(share(3, "zz")), accept);
    assert_eq!(
        a.sign("k1", b"m", c, never).unwrap_err(),
        SunderError::InsufficientShares { need: 2, got: 1 }
    );
    let mut c = a.collector();
    c.record(Some(share(1, "00")), accept);
    c.record(Some(share(2, "01")), accept);
    let failed = a.sign("k1", b"m", c, |_: &&str, _: Vec<Vec<u8>>, _: &[u8]| Err(SunderError::AssemblyFailed("bad".into())));
    assert_eq!(failed.unwrap_err(), SunderError::AssemblyFailed("bad".into()));
}

#[test]
fn all_nodes_up_gives_the_first_threshold() {
    // 3-of-5, every node answers: nodes 1, 2 and 3 take part.
    let a: SunderAssembler<u8> = SunderAssembler::load(
        (1..=5).map(|i| format!("http://node{}:9000", i)).collect(),
        3,
        vec![("k1".into(), 7)],
    );
    let mut c = a.collector();
    for i in 1..=5 {
        if !c.wants_more() {
            break;
        }
        c.record(Some(share(i, "aa")), accept);
    }
    let combined = a.sign("k1", b"m", c, |_: &u8, shares: Vec<Vec<u8>>, _: &[u8]| Ok(shares.concat())).unwrap();
    assert_eq!(combined.nodes_participated, vec![1, 2, 3]);
    assert_eq!(combined.signature, "aaaaaa");
}

#[test]
fn assembler_checks_signatures() {
    let a = assembler();
    let check = |pk: &&str, sig: Vec<u8>, m: &[u8]| -> Result<bool, SunderError> {
        Ok(*pk == "pk2" && sig == vec![0xbe, 0xef] && m == b"hello")
    };
    assert_eq!(a.verify("k2", "beef", b"hello", check), Ok(true));
    assert_eq!(a.verify("k2", "beee", b"hello", check), Ok(false));
    assert_eq!(a.verify("zz", "beef", b"hello", check).unwrap_err(), SunderError::KeyNotFound("zz".into()));
    assert!(matches!(a.verify("k2", "xyz", b"hello", check).unwrap_err(), SunderError::InvalidHex(_)));
}

#[test]
fn aggregator_handlers() {
    let state = AggState { assembler: assembler(), audit: AuditLog::new("/tmp/a.jsonl") };
    let h = agg::health(&state);
    assert_eq!(h.status, "ok");
    assert_eq!(h.node_index, None);
    assert_eq!(h.keys_loaded, 2);
    assert_eq!(agg::list_keys(&state).len(), 2);

    let req = SignRequest { message: "68656c6c6f".into() };
    assert_eq!(agg::sign_inputs(&req).unwrap(), b"hello".to_vec());
    let bad = SignRequest { message: "6g".into() };
    assert_eq!(
        agg::sign_inputs(&bad).unwrap_err(),
        (400, "invalid message hex: Invalid character 'g' at position 1".to_string())
    );
    let ok = CombinedSigResponse { key_name: "k1".into(), signature: "aa".into(), nodes_participated: vec![1, 3, 4] };
    let (event, resp) = agg::sign("k1", &req, Ok(ok.clone()));
    assert_eq!(resp.unwrap(), ok);
    assert_eq!(
        event,
        AuditEvent::SignRequest {
            key_name: "k1".into(),
            message_hex: "68656c6c6f".into(),
            nodes_participated: vec![1, 3, 4],
            success: true
        }
    );
    let (event, resp) = agg::sign("k1", &req, Err(SunderError::InsufficientShares { need: 3, got: 2 }));
    assert_eq!(
        resp.unwrap_err(),
        (INTERNAL_SERVER_ERROR, "not enough partial signatures: need 3, got 2".to_string())
    );
    assert_eq!(
        event,
        AuditEvent::SignRequest {
            key_name: "k1".into(),
            message_hex: "68656c6c6f".into(),
            nodes_participated: vec![],
            success: false
        }
    );

    let check = |_: &&str, sig: Vec<u8>, m: &[u8]| -> Result<bool, SunderError> { Ok(sig == vec![1] && m == b"hi") };
    let vreq = |key: &str, sig: &str, msg: &str| VerifyRequest { key_name: key.into(), signature: sig.into(), message: msg.into() };
    assert_eq!(agg::verify(&state, &vreq("k1", "01", "6869"), check).unwrap(), VerifyResponse { valid: true });
    assert_eq!(agg::verify(&state, &vreq("k1", "02", "6869"), check).unwrap(), VerifyResponse { valid: false });
    assert_eq!(
        agg::verify(&state, &vreq("x", "01", "6869"), check).unwrap_err(),
        (INTERNAL_SERVER_ERROR, "key not found: 'x'".to_string())
    );
    assert_eq!(
        agg::verify(&state, &vreq("k1", "01", "686"), check).unwrap_err(),
        (400, "invalid message hex: Odd number of digits".to_string())
    );
    let failing = |_: &&str, _: Vec<u8>, _: &[u8]| -> Result<bool, SunderError> { Err(SunderError::AssemblyFailed("e".into())) };
    assert_eq!(
        agg::verify(&state, &vreq("k1", "01", "6869"), failing).unwrap_err(),
        (INTERNAL_SERVER_ERROR, "signature assembly failed: e".to_string())
    );
}

fn key_share(name: &str, share_id: u16) -> Option<(String, KeyShare<u32, String>)> {
    Some((
        name.into(),
        KeyShare { share: share_id as u32, public_key: format!("pk-{}", name), scheme: "Bls04".into(), threshold: 3, share_id },
    ))
}

fn signer() -> NodeSigner<u32, String> {
    NodeSigner::load(2, vec![key_share("k1", 2), None, key_share("k2", 2)])
}

#[test]
fn node_loads_only_entries_with_shares() {
    let s = signer();
    assert_eq!(s.node_index, 2);
    assert_eq!(s.key_count(), 2);
    let keys = s.list_keys();
    assert_eq!(keys[0].name, "k1");
    assert_eq!(keys[1].name, "k2");
    assert_eq!(keys[0].scheme, "Bls04");
    assert_eq!(keys[0].threshold, 3);
    assert_eq!(keys[0].share_id, 2);
    assert_eq!(s.get_public_key("k2").unwrap(), "pk-k2");
    assert_eq!(s.get_public_key("k9").unwrap_err(), SunderError::KeyNotFound("k9".into()));
}

#[test]
fn node_signing_rules() {
    let s = signer();
    assert_eq!(s.key_share("k1").unwrap().share, 2);
    assert_eq!(
        s.key_share("k9").unwrap_err(),
        SunderError::KeyNotFound("key 'k9' not in keystore \u{2014} available: [k1, k2]".into())
    );
    let sign = |share: &u32, m: &[u8], l: &[u8]| -> Result<Vec<u8>, SunderError> {
        let mut out = vec![*share as u8];
        out.extend_from_slice(m);
        out.extend_from_slice(l);
        Ok(out)
    };
    assert_eq!(
        s.partial_sign("k1", b"\x30", b"\x01", sign).unwrap(),
        PartialSigResponse { node_index: 2, key_name: "k1".into(), data: "023001".into() }
    );
    let failing = |_: &u32, _: &[u8], _: &[u8]| -> Result<Vec<u8>, SunderError> {
        Err(SunderError::PartialSignFailed("boom".into()))
    };
    assert_eq!(
        s.partial_sign("k1", b"m", b"l", failing).unwrap_err(),
        SunderError::PartialSignFailed("boom".into())
    );
    assert_eq!(
        s.partial_sign("k9", b"m", b"l", sign).unwrap_err(),
        SunderError::KeyNotFound("key 'k9' not in keystore \u{2014} available: [k1, k2]".into())
    );
}

#[test]
fn node_handlers_and_startup() {
    let state = NodeState { signer: signer(), audit: AuditLog::new("/tmp/n.jsonl") };
    let h = node::health(&state);
    assert_eq!(h.status, "ok");
    assert_eq!(h.node_index, Some(2));
    assert_eq!(h.keys_loaded, 2);
    assert_eq!(node::list_keys(&state).len(), 2);

    let req = PartialSignRequest { key_name: "k1".into(), message: "68656c6c6f".into(), label: "k1".into() };
    let (message, label) = node::signing_inputs(&req).unwrap();
    assert_eq!(message, b"hello".to_vec());
    assert_eq!(label, b"k1".to_vec());
    let bad = PartialSignRequest { key_name: "k1".into(), message: "xyz".into(), label: "k1".into() };
    assert_eq!(node::signing_inputs(&bad).unwrap_err().0, 400);

    let sign = |share: &u32, m: &[u8], l: &[u8]| -> Result<Vec<u8>, SunderError> {
        assert_eq!(m, b"hello");
        assert_eq!(l, b"k1");
        Ok(vec![*share as u8, 0xaa])
    };
    let (event, answer) = node::partial_sign(&state, &req, sign);
    assert_eq!(event, None);
    assert_eq!(answer.unwrap(), PartialSigResponse { node_index: 2, key_name: "k1".into(), data: "02aa".into() });
    let failing = |_: &u32, _: &[u8], _: &[u8]| -> Result<Vec<u8>, SunderError> {
        Err(SunderError::PartialSignFailed("boom".into()))
    };
    let (event, answer) = node::partial_sign(&state, &req, failing);
    assert_eq!(
        event,
        Some(AuditEvent::SignFailed { key_name: "k1".into(), reason: "partial signing failed: boom".into() })
    );
    assert_eq!(answer.unwrap_err(), (500, "partial signing failed: boom".to_string()));
    let (event, answer) = node::partial_sign(&state, &bad, failing);
    assert_eq!(event, None);
    assert_eq!(answer.unwrap_err().0, 400);

    let args = NodeArgs {
        keystore: "/config/node2.keystore".into(),
        node_index: 2,
        bind: "0.0.0.0:9000".into(),
        audit_log: "/tmp/n.jsonl".into(),
    };
    let events = startup_events(&state.signer, &args);
    assert_eq!(
        events,
        vec![
            AuditEvent::KeyLoaded { key_name: "k1".into(), scheme: "Bls04".into() },
            AuditEvent::KeyLoaded { key_name: "k2".into(), scheme: "Bls04".into() },
            AuditEvent::NodeStarted { node_index: 2, bind_addr: "0.0.0.0:9000".into() },
        ]
    );
}

#[test]
fn client_requests() {
    let c = SunderClient::new("http://localhost:8080///");
    assert_eq!(c.base_url, "http://localhost:8080");
    assert_eq!(SunderClient::new("http://h").base_url, "http://h");
    assert_eq!(SunderClient::new("/").base_url, "");
    let (url, body) = c.sign("bridge-signer", b"approve_withdrawal_4821");
    assert_eq!(url, "http://localhost:8080/v1/sign/bridge-signer");
    assert_eq!(body.message, "617070726f76655f7769746864726177616c5f34383231");
    let (url, body) = c.verify("k", "abcd", b"hello");
    assert_eq!(url, "http://localhost:8080/v1/verify");
    assert_eq!(body.key_name, "k");
    assert_eq!(body.signature, "abcd");
    assert_eq!(body.message, "68656c6c6f");
    assert_eq!(
        SunderClient::sign_outcome(SignReply::Refused { status: "500 Internal Server Error".into(), body: "oops".into() }),
        Err(SunderError::Http("500 Internal Server Error: oops".into()))
    );
    assert_eq!(
        SunderClient::sign_outcome(SignReply::Unreachable("connection refused".into())),
        Err(SunderError::Http("connection refused".into()))
    );
    let ok = CombinedSigResponse { key_name: "k".into(), signature: "aa".into(), nodes_participated: vec![1] };
    assert_eq!(SunderClient::sign_outcome(SignReply::Accepted(Ok(ok.clone()))), Ok(ok));
    assert_eq!(
        SunderClient::sign_outcome(SignReply::Accepted(Err("bad json".into()))),
        Err(SunderError::Http("bad json".into()))
    );
    assert_eq!(SunderClient::verify_outcome(VerifyReply::Answered(Ok(Some(true)))), Ok(true));
    assert_eq!(SunderClient::verify_outcome(VerifyReply::Answered(Ok(Some(false)))), Ok(false));
    assert_eq!(SunderClient::verify_outcome(VerifyReply::Answered(Ok(None))), Ok(false));
    assert_eq!(
        SunderClient::verify_outcome(VerifyReply::Answered(Err("bad json".into()))),
        Err(SunderError::Http("bad json".into()))
    );
    assert_eq!(
        SunderClient::verify_outcome(VerifyReply::Unreachable("down".into())),
        Err(SunderError::Http("down".into()))
    );
}

#[test]
fn node_reads_back_what_the_aggregator_asked() {
    let a = assembler();
    let message: Vec<u8> = (0..=255u8).rev().collect();
    let req = a.sign_request("k1", &message).unwrap();
    let (read, label) = node::signing_inputs(&req).unwrap();
    assert_eq!(read, message);
    assert_eq!(label, b"k1".to_vec());
}

#[test]
fn aggregator_reads_back_what_the_client_sent() {
    let c = SunderClient::new("http://agg:8080/");
    let (_, body) = c.sign("k1", b"approve");
    assert_eq!(sunder::http::decode_message(&body.message).unwrap(), b"approve".to_vec());
}

#[test]
fn client_address_trimming_is_idempotent() {
    let once = SunderClient::new("http://agg:8080//");
    let twice = SunderClient::new(&once.base_url);
    assert_eq!(once, twice);
    assert!(!once.base_url.ends_with('/'));
}
