//! A node's key shares and its signing rules.

use vstd::prelude::*;
use crate::error::SunderError;
use crate::hex_codec::{encode_hex, hex_encode};
use crate::key_table::KeyTable;
use crate::text::{concat3, join, seq_join};
use crate::types::{KeyInfo, PartialSigResponse};

verus! {

/// One key share as the node holds it, with what the node reports of it.
#[derive(Debug, Clone, PartialEq, Eq)]
pub struct KeyShare<S, P> {
    /// The private key share.
    pub share: S,
    /// The public key of the whole key.
    pub public_key: P,
    /// The scheme's name.
    pub scheme: String,
    pub threshold: u16,
    pub share_id: u16,
}

/// The description of a key the node holds no share of, with the names of
/// those it does.
pub open spec fn missing_share_text(key_name: Seq<char>, names: Seq<Seq<char>>) -> Seq<char> {
    "key '"@ + key_name + "' not in keystore \u{2014} available: ["@ + seq_join(names, ", "@) + "]"@
}

/// The table that results from storing, in turn, each entry that holds a
/// share, later entries replacing earlier ones of the same name.
pub open spec fn shares_after<S, P>(entries: Seq<Option<(String, KeyShare<S, P>)>>) -> Map<Seq<char>, KeyShare<S, P>>
    decreases entries.len(),
{
    if entries.len() == 0 {
        Map::empty()
    } else {
        match entries.last() {
            Some((name, share)) => shares_after(entries.drop_last()).insert(name@, share),
            None => shares_after(entries.drop_last()),
        }
    }
}

/// Whether a signing outcome is a success or one of the failures that
/// signing can give: a failed partial signature, or a share that does not
/// serialize.
pub open spec fn signing_error(out: Result<Vec<u8>, SunderError>) -> bool {
    out matches Err(e) ==> (e is PartialSignFailed || e is Serialization)
}

/// Whether a node's answer is what its signing step gave: the share bytes
/// hex-encoded, or the same error.
pub open spec fn answers_signing(r: Result<PartialSigResponse, SunderError>, out: Result<Vec<u8>, SunderError>) -> bool {
    match out {
        Ok(bytes) => r matches Ok(resp) && resp.data@ == hex_encode(bytes@),
        Err(e) => r == Err::<PartialSigResponse, SunderError>(e),
    }
}

/// What `partial_sign` answers for `key_name`: a key the node holds no
/// share of is refused with the names it holds; otherwise the answer is
/// what `sign` gave with the node's share, under the node's number.
pub open spec fn partial_sign_answer<S, P, F: FnOnce(&S, &[u8], &[u8]) -> Result<Vec<u8>, SunderError>>(
    signer: NodeSigner<S, P>,
    key_name: Seq<char>,
    message: &[u8],
    label: &[u8],
    sign: F,
    r: Result<PartialSigResponse, SunderError>,
) -> bool {
    &&& !signer.keys@.contains_key(key_name) ==> (r matches Err(e) && e matches SunderError::KeyNotFound(s)
        && s@ == missing_share_text(key_name, signer.keys.names()))
    &&& signer.keys@.contains_key(key_name) ==> exists|out: Result<Vec<u8>, SunderError>| {
        &&& #[trigger] sign.ensures((&signer.keys@[key_name].share, message, label), out)
        &&& answers_signing(r, out)
    }
    &&& r matches Ok(resp) ==> {
        &&& resp.node_index == signer.node_index
        &&& resp.key_name@ == key_name
    }
}

/// Loading an entry with a share stores that share under its key id,
/// whatever the share holds; an entry without one changes nothing.
pub proof fn lemma_shares_after_push<S, P>(entries: Seq<Option<(String, KeyShare<S, P>)>>, name: String, share: KeyShare<S, P>)
    ensures
        shares_after(entries.push(Some((name, share)))) == shares_after(entries).insert(name@, share),
        shares_after(entries.push(None)) == shares_after(entries),
{
    assert(entries.push(Some((name, share))).drop_last() =~= entries);
    assert(entries.push(None).drop_last() =~= entries);
}

/// Every entry that carries a share is loaded: its key id is in the table.
pub proof fn lemma_shares_after_holds_all<S, P>(entries: Seq<Option<(String, KeyShare<S, P>)>>)
    ensures
        forall|i: int| 0 <= i < entries.len() && #[trigger] entries[i] is Some ==>
            shares_after(entries).contains_key(entries[i]->Some_0.0@),
    decreases entries.len(),
{
    if entries.len() > 0 {
        let d = entries.drop_last();
        lemma_shares_after_holds_all(d);
        assert forall|i: int| 0 <= i < entries.len() && #[trigger] entries[i] is Some implies
            shares_after(entries).contains_key(entries[i]->Some_0.0@) by {
            if i < d.len() {
                assert(entries[i] == d[i]);
            }
        }
    }
}

/// A node: its number and its key shares, by key id.
pub struct NodeSigner<S, P> {
    pub node_index: usize,
    pub keys: KeyTable<KeyShare<S, P>>,
}

impl<S, P> NodeSigner<S, P> {
    pub open spec fn wf(&self) -> bool {
        self.keys.wf()
    }

    /// Node `node_index` holding the shares of `entries`; an entry without a
    /// private share is passed over, and a later share of a key replaces an
    /// earlier one.
    pub fn load(node_index: usize, entries: Vec<Option<(String, KeyShare<S, P>)>>) -> (n: Self)
        ensures
            n.wf(),
            n.node_index == node_index,
            n.keys@ == shares_after(entries@),
    {
        let mut keys: KeyTable<KeyShare<S, P>> = KeyTable::new();
        let mut rest = entries;
        let ghost all = rest@;
        let ghost mut done: int = 0;
        while rest.len() > 0
            invariant
                keys.wf(),
                0 <= done <= all.len(),
                rest@ == all.subrange(done, all.len() as int),
                keys@ == shares_after(all.take(done)),
            decreases rest.len(),
        {
            let entry = rest.remove(0);
            proof {
                assert(all.take(done + 1).drop_last() =~= all.take(done));
                assert(all.take(done + 1).last() == all[done]);
                done = done + 1;
            }
            match entry {
                Some((name, share)) => keys.insert(name, share),
                None => {},
            }
            assert(rest@ =~= all.subrange(done, all.len() as int));
        }
        assert(all.take(all.len() as int) =~= all);
        NodeSigner { node_index, keys }
    }

    /// The number of key shares held.
    pub fn key_count(&self) -> (n: usize)
        ensures
            n == self.keys.names().len(),
    {
        self.keys.len()
    }

    /// The share of `key_name` to sign with; a key the node holds no share of
    /// is refused, with the names of those it holds.
    pub fn key_share(&self, key_name: &str) -> (r: Result<&KeyShare<S, P>, SunderError>)
        requires
            self.wf(),
        ensures
            r is Ok <==> self.keys@.contains_key(key_name@),
            r matches Ok(k) ==> *k == self.keys@[key_name@],
            r matches Err(e) ==> e matches SunderError::KeyNotFound(s)
                && s@ == missing_share_text(key_name@, self.keys.names()),
    {
        match self.keys.get(key_name) {
            Some(k) => Ok(k),
            None => {
                let names = self.keys.name_list();
                let listed = join(&names, ", ");
                let mut text = concat3("key '", key_name, "' not in keystore \u{2014} available: [");
                text.append(listed.as_str());
                text.append("]");
                Err(SunderError::KeyNotFound(text))
            },
        }
    }

    /// The node's part of the signature of `message` under `key_name`:
    /// `sign` signs with the node's share of the key, and the share bytes it
    /// gives come back hex-encoded, under the node's number. A key the node
    /// holds no share of is refused before anything is signed; a failed
    /// signing is passed on.
    pub fn partial_sign<F>(&self, key_name: &str, message: &[u8], label: &[u8], sign: F) -> (r: Result<
        PartialSigResponse,
        SunderError,
    >) where F: FnOnce(&S, &[u8], &[u8]) -> Result<Vec<u8>, SunderError>
        requires
            self.wf(),
            forall|share: &S, m: &[u8], l: &[u8]| #[trigger] sign.requires((share, m, l)),
            forall|share: &S, m: &[u8], l: &[u8], out: Result<Vec<u8>, SunderError>|
                #[trigger] sign.ensures((share, m, l), out) ==> signing_error(out),
        ensures
            partial_sign_answer(*self, key_name@, message, label, sign, r),
            r matches Err(e) ==> (e is KeyNotFound || e is PartialSignFailed || e is Serialization),
    {
        match self.key_share(key_name) {
            Err(e) => Err(e),
            Ok(k) => {
                let signed = sign(&k.share, message, label);
                let ghost out = signed;
                assert(sign.ensures((&self.keys@[key_name@].share, message, label), out));
                match signed {
                    Ok(bytes) => {
                        let data = encode_hex(bytes.as_slice());
                        Ok(PartialSigResponse {
                            node_index: self.node_index,
                            key_name: String::from_str(key_name),
                            data,
                        })
                    },
                    Err(e) => Err(e),
                }
            },
        }
    }

    /// The public key of `key_name`.
    pub fn get_public_key(&self, key_name: &str) -> (r: Result<&P, SunderError>)
        requires
            self.wf(),
        ensures
            r is Ok <==> self.keys@.contains_key(key_name@),
            r matches Ok(p) ==> *p == self.keys@[key_name@].public_key,
            r matches Err(e) ==> e matches SunderError::KeyNotFound(s) && s@ == key_name@,
    {
        match self.keys.get(key_name) {
            Some(k) => Ok(&k.public_key),
            None => Err(SunderError::KeyNotFound(String::from_str(key_name))),
        }
    }

    /// One entry per key share, in load order: the key's name, its scheme,
    /// threshold and share id.
    pub fn list_keys(&self) -> (r: Vec<KeyInfo>)
        requires
            self.wf(),
        ensures
            r@.len() == self.keys.names().len(),
            forall|i: int| 0 <= i < r@.len() ==> {
                let k = self.keys@[self.keys.names()[i]];
                &&& (#[trigger] r@[i]).name@ == self.keys.names()[i]
                &&& r@[i].scheme@ == k.scheme@
                &&& r@[i].threshold == k.threshold
                &&& r@[i].share_id == k.share_id
            },
    {
        let mut r: Vec<KeyInfo> = Vec::new();
        let n = self.keys.len();
        let mut i: usize = 0;
        while i < n
            invariant
                self.wf(),
                n == self.keys.names().len(),
                i <= n,
                r@.len() == i,
                forall|j: int| 0 <= j < i ==> {
                    let k = self.keys@[self.keys.names()[j]];
                    &&& (#[trigger] r@[j]).name@ == self.keys.names()[j]
                    &&& r@[j].scheme@ == k.scheme@
                    &&& r@[j].threshold == k.threshold
                    &&& r@[j].share_id == k.share_id
                },
            decreases n - i,
        {
            let name = self.keys.name_at(i).clone();
            let k = self.keys.value_at(i);
            r.push(KeyInfo {
                name,
                scheme: k.scheme.clone(),
                threshold: k.threshold,
                share_id: k.share_id,
            });
            i = i + 1;
        }
        r
    }
}

} // verus!
