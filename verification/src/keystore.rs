//! The registry of keys that a node knows about.

use vstd::prelude::*;
use crate::error::SunderError;
use crate::key_table::KeyTable;

verus! {

/// What is recorded of a key, apart from its cryptographic material.
#[derive(Debug, Clone, PartialEq, Eq)]
pub struct KeyMeta {
    pub name: String,
    pub scheme: String,
    pub group: String,
    pub threshold: usize,
    pub total_nodes: usize,
    pub node_index: usize,
    /// Where this node's key store file lies.
    pub keystore_path: String,
}

/// The keys a node knows about, by name.
pub struct KeyRegistry {
    pub keys: KeyTable<KeyMeta>,
}

impl KeyRegistry {
    pub open spec fn wf(&self) -> bool {
        self.keys.wf()
    }

    /// A registry that knows no key.
    pub fn new() -> (r: Self)
        ensures
            r.wf(),
            r.keys@ == Map::<Seq<char>, KeyMeta>::empty(),
    {
        KeyRegistry { keys: KeyTable::new() }
    }

    /// Records `meta` under `key_name`, replacing what was recorded there.
    pub fn insert(&mut self, key_name: String, meta: KeyMeta)
        requires
            old(self).wf(),
        ensures
            final(self).wf(),
            final(self).keys@ == old(self).keys@.insert(key_name@, meta),
    {
        self.keys.insert(key_name, meta);
    }

    /// The key recorded under `key_name`, or `KeyNotFound` naming it.
    pub fn get(&self, key_name: &str) -> (r: Result<&KeyMeta, SunderError>)
        requires
            self.wf(),
        ensures
            r is Ok <==> self.keys@.contains_key(key_name@),
            r matches Ok(m) ==> *m == self.keys@[key_name@],
            r matches Err(e) ==> e matches SunderError::KeyNotFound(s) && s@ == key_name@,
    {
        match self.keys.get(key_name) {
            Some(m) => Ok(m),
            None => Err(SunderError::KeyNotFound(String::from_str(key_name))),
        }
    }
}

impl Default for KeyRegistry {
    fn default() -> (r: Self)
        ensures
            r.wf(),
            r.keys@ == Map::<Seq<char>, KeyMeta>::empty(),
    {
        KeyRegistry::new()
    }
}

} // verus!
