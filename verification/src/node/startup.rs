//! A node's settings and what it records when it starts.

use vstd::prelude::*;
use crate::audit::AuditEvent;
use crate::node::node_signer::NodeSigner;

verus! {

/// How a node is started.
#[derive(Debug, Clone, PartialEq, Eq)]
pub struct Args {
    /// The key store file with this node's shares.
    pub keystore: String,
    /// This node's number, counted from 1 and unique in the cluster.
    pub node_index: usize,
    /// The address to listen on.
    pub bind: String,
    /// The audit trail file.
    pub audit_log: String,
}

/// What a starting node records: one `KeyLoaded` per key share, in load
/// order, then `NodeStarted` with its number and address.
pub fn startup_events<S, P>(signer: &NodeSigner<S, P>, args: &Args) -> (r: Vec<AuditEvent>)
    requires
        signer.wf(),
    ensures
        r@.len() == signer.keys.names().len() + 1,
        forall|i: int| 0 <= i < signer.keys.names().len() ==> (#[trigger] r@[i] matches
            AuditEvent::KeyLoaded { key_name, scheme } && key_name@ == signer.keys.names()[i]
            && scheme@ == signer.keys@[signer.keys.names()[i]].scheme@),
        r@.last() matches AuditEvent::NodeStarted { node_index, bind_addr }
            && node_index == args.node_index && bind_addr@ == args.bind@,
{
    let keys = signer.list_keys();
    let mut events: Vec<AuditEvent> = Vec::new();
    let n = keys.len();
    let mut i: usize = 0;
    while i < n
        invariant
            signer.wf(),
            n == keys@.len(),
            n == signer.keys.names().len(),
            i <= n,
            events@.len() == i,
            forall|j: int| 0 <= j < n ==> {
                let k = signer.keys@[signer.keys.names()[j]];
                &&& (#[trigger] keys@[j]).name@ == signer.keys.names()[j]
                &&& keys@[j].scheme@ == k.scheme@
            },
            forall|j: int| 0 <= j < i ==> (#[trigger] events@[j] matches
                AuditEvent::KeyLoaded { key_name, scheme } && key_name@ == signer.keys.names()[j]
                && scheme@ == signer.keys@[signer.keys.names()[j]].scheme@),
        decreases n - i,
    {
        events.push(AuditEvent::KeyLoaded {
            key_name: keys[i].name.clone(),
            scheme: keys[i].scheme.clone(),
        });
        i = i + 1;
    }
    events.push(AuditEvent::NodeStarted { node_index: args.node_index, bind_addr: args.bind.clone() });
    events
}

} // verus!
