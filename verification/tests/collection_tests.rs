use sunder::collector::ShareCollector;
use sunder::error::SunderError;
use sunder::key_table::KeyTable;
use sunder::keystore::{KeyMeta, KeyRegistry};
use sunder::types::PartialSigResponse;

fn share(node: usize) -> PartialSigResponse {
    PartialSigResponse { node_index: node, key_name: "k".into(), data: format!("0{}", node) }
}

fn accept(bytes: Vec<u8>) -> Result<Vec<u8>, SunderError> {
    Ok(bytes)
}

/// A share parser that refuses anything starting with 0xff.
fn strict(bytes: Vec<u8>) -> Result<Vec<u8>, SunderError> {
    if bytes.first() == Some(&0xff) {
        Err(SunderError::Serialization("bad share".into()))
    } else {
        Ok(bytes)
    }
}

#[test]
fn collector_keeps_first_threshold_shares_in_node_order() {
    let mut c = ShareCollector::new(3, 5);
    let outcomes = vec![Some(share(1)), None, Some(share(3)), Some(share(4)), Some(share(5))];
    for o in outcomes {
        if !c.wants_more() {
            break;
        }
        c.record(o, accept);
    }
    assert_eq!(c.seen(), 4);
    let (shares, nodes) = c.finish().unwrap();
    assert_eq!(nodes, vec![1, 3, 4]);
    assert_eq!(shares, vec![vec![0x01], vec![0x03], vec![0x04]]);
}

#[test]
fn collector_stops_wanting_at_threshold() {
    let mut c = ShareCollector::new(2, 3);
    c.record(Some(share(1)), accept);
    assert!(c.wants_more());
    c.record(Some(share(2)), accept);
    assert!(!c.wants_more());
    let (_, nodes) = c.finish().unwrap();
    assert_eq!(nodes, vec![1, 2]);
}

#[test]
fn collector_survives_down_nodes() {
    // 3-of-5 with two nodes down still signs.
    let mut c = ShareCollector::new(3, 5);
    for o in vec![None, Some(share(2)), None, Some(share(4)), Some(share(5))] {
        c.record(o, accept);
    }
    let (_, nodes) = c.finish().unwrap();
    assert_eq!(nodes, vec![2, 4, 5]);
}

#[test]
fn collector_passes_over_bad_shares() {
    // 3-of-5: node 1 sends data that is not hex, node 3 a share the scheme
    // refuses; the three honest nodes still make a signature.
    let mut c = ShareCollector::new(3, 5);
    let bad_hex = PartialSigResponse { node_index: 1, key_name: "k".into(), data: "zz".into() };
    let rejected = PartialSigResponse { node_index: 3, key_name: "k".into(), data: "ff00".into() };
    for o in vec![Some(bad_hex), Some(share(2)), Some(rejected), Some(share(4)), Some(share(5))] {
        if !c.wants_more() {
            break;
        }
        c.record(o, strict);
    }
    let (shares, nodes) = c.finish().unwrap();
    assert_eq!(nodes, vec![2, 4, 5]);
    assert_eq!(shares, vec![vec![0x02], vec![0x04], vec![0x05]]);
}

#[test]
fn collector_reports_shortfall() {
    let mut c = ShareCollector::new(3, 3);
    for o in vec![None, Some(share(2)), None] {
        c.record(o, accept);
    }
    assert!(c.wants_more());
    assert!(c.all_heard());
    assert_eq!(
        c.finish().unwrap_err(),
        SunderError::InsufficientShares { need: 3, got: 1 }
    );
}

#[test]
fn collector_with_zero_threshold_needs_nothing() {
    let c: ShareCollector<Vec<u8>> = ShareCollector::new(0, 2);
    assert!(!c.wants_more());
    let (shares, nodes) = c.finish().unwrap();
    assert!(shares.is_empty() && nodes.is_empty());
}

#[test]
fn key_table_keeps_first_position_and_last_value() {
    let mut t: KeyTable<u32> = KeyTable::new();
    assert_eq!(t.len(), 0);
    t.insert("b".into(), 1);
    t.insert("a".into(), 2);
    t.insert("b".into(), 3);
    assert_eq!(t.len(), 2);
    assert_eq!(t.get("b"), Some(&3));
    assert_eq!(t.get("a"), Some(&2));
    assert_eq!(t.get("c"), None);
    assert!(t.contains("a"));
    assert!(!t.contains("c"));
    assert_eq!(t.name_list(), vec!["b".to_string(), "a".to_string()]);
    assert_eq!(t.name_at(1), "a");
    assert_eq!(*t.value_at(0), 3);
}

fn meta(name: &str) -> KeyMeta {
    KeyMeta {
        name: name.into(),
        scheme: "bls04".into(),
        group: "bls12381".into(),
        threshold: 3,
        total_nodes: 5,
        node_index: 1,
        keystore_path: "/config/node1.keystore".into(),
    }
}

#[test]
fn registry_lookup() {
    let mut r = KeyRegistry::default();
    r.insert("bridge-signer".into(), meta("bridge-signer"));
    assert_eq!(r.get("bridge-signer").unwrap(), &meta("bridge-signer"));
    assert_eq!(
        r.get("missing").unwrap_err(),
        SunderError::KeyNotFound("missing".into())
    );
    let empty = KeyRegistry::new();
    assert!(empty.get("bridge-signer").is_err());
}
