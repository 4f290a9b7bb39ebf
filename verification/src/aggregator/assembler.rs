//! The aggregator's signing rules.

use vstd::prelude::*;
use crate::collector::{lemma_collected_from_nodes, lemma_complete_means_exactly_threshold, ShareCollector};
use crate::error::SunderError;
use crate::hex_codec::{decode_hex, encode_hex, hex_decode, hex_encode, hex_valid};
use crate::key_table::KeyTable;
use crate::text::{concat2, join, seq_join};
use crate::types::{CombinedSigResponse, KeyInfo, PartialSignRequest};

verus! {

/// The table that results from storing each of `entries` in turn, later
/// entries replacing earlier ones of the same name.
pub open spec fn table_after<K>(entries: Seq<(String, K)>) -> Map<Seq<char>, K>
    decreases entries.len(),
{
    if entries.len() == 0 {
        Map::empty()
    } else {
        table_after(entries.drop_last()).insert(entries.last().0@, entries.last().1)
    }
}

/// The description of a key that is not there, with the names that are.
pub open spec fn missing_key_text(key_name: Seq<char>, names: Seq<Seq<char>>) -> Seq<char> {
    "'"@ + key_name + "' \u{2014} available: ["@ + seq_join(names, ", "@) + "]"@
}

/// Whether `shares` are the kept shares' values, in order.
pub open spec fn kept_values<T>(shares: Seq<T>, kept: Seq<(nat, T)>) -> bool {
    &&& shares.len() == kept.len()
    &&& forall|i: int| 0 <= i < kept.len() ==> #[trigger] shares[i] == kept[i].1
}

/// Whether an assembly outcome is a success or one of the failures that
/// assembling can give: a failed combination, or a signature that does not
/// serialize.
pub open spec fn assembly_error(out: Result<Vec<u8>, SunderError>) -> bool {
    out matches Err(e) ==> (e is AssemblyFailed || e is Serialization)
}

/// The address at which a node takes partial signing requests.
pub open spec fn partial_sign_url(node_url: Seq<char>) -> Seq<char> {
    node_url + "/partial-sign"@
}

/// What `verify` answers: a key without a public key is refused with
/// `KeyNotFound`, a signature that is not hexadecimal with `InvalidHex`;
/// otherwise the answer is what `check` gave for the key's public key, the
/// signature's bytes and the message.
pub open spec fn verify_answer<K, F: FnOnce(&K, Vec<u8>, &[u8]) -> Result<bool, SunderError>>(
    a: SunderAssembler<K>,
    key_name: Seq<char>,
    signature_hex: Seq<char>,
    message: &[u8],
    check: F,
    r: Result<bool, SunderError>,
) -> bool {
    &&& !a.keys().contains_key(key_name) ==> (r matches Err(e)
        && e matches SunderError::KeyNotFound(s) && s@ == key_name)
    &&& a.keys().contains_key(key_name) && !hex_valid(signature_hex) ==> (r matches Err(e) && e is InvalidHex)
    &&& a.keys().contains_key(key_name) && hex_valid(signature_hex) ==> exists|sig: Vec<u8>|
        sig@ == hex_decode(signature_hex) && #[trigger] check.ensures((&a.keys()[key_name], sig, message), r)
}

/// A node's partial signing address is its configured address, kept whole,
/// followed by `/partial-sign`.
pub proof fn lemma_partial_sign_url(node_url: Seq<char>)
    ensures
        partial_sign_url(node_url).len() == node_url.len() + 13,
        partial_sign_url(node_url).take(node_url.len() as int) == node_url,
        partial_sign_url(node_url).skip(node_url.len() as int) == "/partial-sign"@,
{
    reveal_strlit("/partial-sign");
    assert(partial_sign_url(node_url).take(node_url.len() as int) =~= node_url);
    assert(partial_sign_url(node_url).skip(node_url.len() as int) =~= "/partial-sign"@);
}

/// Loading a key stores it: after the entries `entries` and then one more,
/// the table is the earlier table with that key set to that public key.
pub proof fn lemma_table_after_push<K>(entries: Seq<(String, K)>, name: String, key: K)
    ensures
        table_after(entries.push((name, key))) == table_after(entries).insert(name@, key),
{
    assert(entries.push((name, key)).drop_last() =~= entries);
}

/// Every loaded entry's key id is in the table.
pub proof fn lemma_table_after_holds_all<K>(entries: Seq<(String, K)>)
    ensures
        forall|i: int| 0 <= i < entries.len() ==> #[trigger] table_after(entries).contains_key(entries[i].0@),
    decreases entries.len(),
{
    if entries.len() > 0 {
        let d = entries.drop_last();
        lemma_table_after_holds_all(d);
        assert forall|i: int| 0 <= i < entries.len() implies #[trigger] table_after(entries).contains_key(entries[i].0@) by {
            if i < d.len() {
                assert(entries[i] == d[i]);
                assert(table_after(d).contains_key(d[i].0@));
            }
        }
    }
}

/// The aggregator: the nodes to ask, in order, how many shares make a
/// signature, and the public key of each signing key, by name.
pub struct SunderAssembler<K> {
    pub nodes: Vec<String>,
    pub threshold: usize,
    pub public_keys: KeyTable<K>,
}

impl<K> SunderAssembler<K> {
    pub open spec fn wf(&self) -> bool {
        self.public_keys.wf()
    }

    /// The public keys, by name.
    pub open spec fn keys(&self) -> Map<Seq<char>, K> {
        self.public_keys@
    }

    /// The names of the public keys, in the order they were loaded.
    pub open spec fn key_names(&self) -> Seq<Seq<char>> {
        self.public_keys.names()
    }

    /// A well-formed aggregator lists each of its key names once, and exactly
    /// the names it has keys for.
    pub proof fn lemma_key_names(&self)
        requires
            self.wf(),
        ensures
            self.key_names().no_duplicates(),
            forall|k: Seq<char>| #[trigger] self.keys().contains_key(k) <==> self.key_names().contains(k),
    {
        self.public_keys.lemma_names();
    }

    /// Every key that `list_keys` lists can be signed with: its name is one
    /// the aggregator holds a public key for, so neither `sign_request` nor
    /// `sign` refuses it as not found.
    pub proof fn lemma_listed_keys_are_signable(&self)
        requires
            self.wf(),
        ensures
            forall|i: int| 0 <= i < self.key_names().len() ==> #[trigger] self.keys().contains_key(self.key_names()[i]),
    {
        self.public_keys.lemma_names();
    }

    /// An aggregator for `nodes` and `threshold` that holds the public keys of
    /// `keys`, each under its key id; a later key with the same id replaces
    /// an earlier one.
    pub fn load(nodes: Vec<String>, threshold: usize, keys: Vec<(String, K)>) -> (a: Self)
        ensures
            a.wf(),
            a.nodes@ == nodes@,
            a.threshold == threshold,
            a.keys() == table_after(keys@),
    {
        let mut table: KeyTable<K> = KeyTable::new();
        let mut rest = keys;
        let ghost all = rest@;
        let ghost mut done: int = 0;
        while rest.len() > 0
            invariant
                table.wf(),
                0 <= done <= all.len(),
                rest@ == all.subrange(done, all.len() as int),
                table@ == table_after(all.take(done)),
            decreases rest.len(),
        {
            let (name, key) = rest.remove(0);
            proof {
                assert(all.take(done + 1).drop_last() =~= all.take(done));
                assert(all.take(done + 1).last() == all[done]);
                done = done + 1;
            }
            table.insert(name, key);
            assert(rest@ =~= all.subrange(done, all.len() as int));
        }
        assert(all.take(all.len() as int) =~= all);
        SunderAssembler { nodes, threshold, public_keys: table }
    }

    /// The number of public keys.
    pub fn key_count(&self) -> (n: usize)
        ensures
            n == self.key_names().len(),
    {
        self.public_keys.len()
    }

    /// The public key of `key_name`.
    pub fn public_key(&self, key_name: &str) -> (r: Option<&K>)
        requires
            self.wf(),
        ensures
            r is Some <==> self.keys().contains_key(key_name@),
            r matches Some(k) ==> *k == self.keys()[key_name@],
    {
        self.public_keys.get(key_name)
    }

    /// The refusal of a key the aggregator has no public key for.
    fn missing_key(&self, key_name: &str) -> (e: SunderError)
        requires
            self.wf(),
        ensures
            e matches SunderError::KeyNotFound(s) && s@ == missing_key_text(key_name@, self.key_names()),
    {
        let names = self.public_keys.name_list();
        let listed = join(&names, ", ");
        let mut text = concat2("'", key_name);
        text.append("' \u{2014} available: [");
        text.append(listed.as_str());
        text.append("]");
        SunderError::KeyNotFound(text)
    }

    /// What each node is asked to sign for `message` under `key_name`: the
    /// message hex-encoded, labelled with the key's name. A key the
    /// aggregator has no public key for is refused, with the names it has.
    pub fn sign_request(&self, key_name: &str, message: &[u8]) -> (r: Result<PartialSignRequest, SunderError>)
        requires
            self.wf(),
        ensures
            r is Ok <==> self.keys().contains_key(key_name@),
            r matches Ok(req) ==> {
                &&& req.key_name@ == key_name@
                &&& req.message@ == hex_encode(message@)
                &&& req.label@ == key_name@
            },
            r matches Err(e) ==> e matches SunderError::KeyNotFound(s)
                && s@ == missing_key_text(key_name@, self.key_names()),
    {
        if !self.public_keys.contains(key_name) {
            return Err(self.missing_key(key_name));
        }
        Ok(PartialSignRequest {
            key_name: String::from_str(key_name),
            message: encode_hex(message),
            label: String::from_str(key_name),
        })
    }

    /// The partial signing address of each node, in node order.
    pub fn partial_sign_urls(&self) -> (r: Vec<String>)
        ensures
            r@.len() == self.nodes@.len(),
            forall|i: int| 0 <= i < r@.len() ==> #[trigger] r@[i]@ == partial_sign_url(self.nodes@[i]@),
            forall|i: int| 0 <= i < r@.len() ==> #[trigger] r@[i]@ == self.nodes@[i]@ + "/partial-sign"@,
    {
        let mut r: Vec<String> = Vec::new();
        let n = self.nodes.len();
        let mut i: usize = 0;
        while i < n
            invariant
                n == self.nodes@.len(),
                i <= n,
                r@.len() == i,
                forall|j: int| 0 <= j < i ==> #[trigger] r@[j]@ == partial_sign_url(self.nodes@[j]@),
            decreases n - i,
        {
            r.push(concat2(self.nodes[i].as_str(), "/partial-sign"));
            i = i + 1;
        }
        r
    }

    /// A collector that wants this aggregator's threshold of shares from its
    /// nodes, and has heard none yet.
    pub fn collector<T>(&self) -> (c: ShareCollector<T>)
        ensures
            c.wf(),
            c.threshold() == self.threshold,
            c.node_count() == self.nodes@.len(),
            c.outcomes().len() == 0,
    {
        ShareCollector::new(self.threshold, self.nodes.len())
    }

    /// The threshold signature of `message` under `key_name` from the shares
    /// gathered in `collector`, in node order.
    ///
    /// A key the aggregator holds no public key for is refused with the
    /// names it holds; fewer than `threshold` valid shares give
    /// `InsufficientShares`. Otherwise `assemble` combines the kept shares
    /// under the key's public key over `message`, and its signature comes
    /// back hex-encoded, with the numbers of the nodes whose shares went into
    /// it: the first `threshold` nodes, by position, that answered with a
    /// valid share. A failed assembly is passed on.
    pub fn sign<T, F>(&self, key_name: &str, message: &[u8], collector: ShareCollector<T>, assemble: F) -> (r: Result<
        CombinedSigResponse,
        SunderError,
    >) where F: FnOnce(&K, Vec<T>, &[u8]) -> Result<Vec<u8>, SunderError>
        requires
            self.wf(),
            collector.wf(),
            collector.threshold() == self.threshold,
            collector.node_count() == self.nodes@.len(),
            forall|pk: &K, shares: Vec<T>, m: &[u8]| #[trigger] assemble.requires((pk, shares, m)),
            forall|pk: &K, shares: Vec<T>, m: &[u8], out: Result<Vec<u8>, SunderError>|
                #[trigger] assemble.ensures((pk, shares, m), out) ==> assembly_error(out),
        ensures
            !self.keys().contains_key(key_name@) ==> (r matches Err(e) && e matches SunderError::KeyNotFound(s)
                && s@ == missing_key_text(key_name@, self.key_names())),
            self.keys().contains_key(key_name@) && collector.kept().len() < self.threshold ==> r == Err::<
                CombinedSigResponse,
                SunderError,
            >(SunderError::InsufficientShares { need: self.threshold, got: collector.kept().len() as usize }),
            self.keys().contains_key(key_name@) && collector.kept().len() >= self.threshold ==> exists|shares: Vec<T>, out: Result<Vec<u8>, SunderError>| {
                    &&& #[trigger] assemble.ensures((&self.keys()[key_name@], shares, message), out)
                    &&& kept_values(shares@, collector.kept())
                    &&& (r is Ok <==> out is Ok)
                    &&& (out matches Err(e) ==> r == Err::<CombinedSigResponse, SunderError>(e))
                    &&& (r matches Ok(c) ==> c.signature@ == hex_encode(out->Ok_0@))
                },
            r matches Ok(c) ==> {
                &&& self.keys().contains_key(key_name@)
                &&& c.key_name@ == key_name@
                &&& c.nodes_participated@.len() == self.threshold
                &&& collector.kept().len() == self.threshold
                &&& forall|k: int| 0 <= k < c.nodes_participated@.len() ==> {
                    &&& #[trigger] c.nodes_participated@[k] as nat == collector.kept()[k].0
                    &&& 1 <= c.nodes_participated@[k] <= self.nodes@.len()
                }
                &&& forall|j: int, k: int| 0 <= j < k < c.nodes_participated@.len() ==>
                    #[trigger] c.nodes_participated@[j] < #[trigger] c.nodes_participated@[k]
            },
            r matches Err(e) ==> !(e is InsufficientShares) || collector.kept().len() < self.threshold,
            r matches Err(e) ==> !(e is KeyNotFound) || !self.keys().contains_key(key_name@),
    {
        let pubkey = match self.public_keys.get(key_name) {
            Some(k) => k,
            None => return Err(self.missing_key(key_name)),
        };
        let ghost kept = collector.kept();
        let ghost outcomes = collector.outcomes();
        proof {
            collector.lemma_heard_at_most_asked();
            lemma_complete_means_exactly_threshold(self.threshold as nat, outcomes);
            lemma_collected_from_nodes(self.threshold as nat, outcomes);
        }
        let (shares, nodes) = match collector.finish() {
            Ok(collected) => collected,
            Err(e) => return Err(e),
        };
        proof {
            assert(kept_values(shares@, kept));
            assert forall|k: int| 0 <= k < nodes@.len() implies 1 <= #[trigger] nodes@[k] <= self.nodes@.len() by {
                assert(nodes@[k] as nat == kept[k].0);
            }
            assert forall|j: int, k: int| 0 <= j < k < nodes@.len() implies #[trigger] nodes@[j] < #[trigger] nodes@[k] by {
                assert(nodes@[j] as nat == kept[j].0);
                assert(nodes@[k] as nat == kept[k].0);
            }
        }
        let ghost shares_given = shares;
        let assembled = assemble(pubkey, shares, message);
        assert(assemble.ensures((&self.keys()[key_name@], shares_given, message), assembled));
        match assembled {
            Ok(sig_bytes) => Ok(CombinedSigResponse {
                key_name: String::from_str(key_name),
                signature: encode_hex(sig_bytes.as_slice()),
                nodes_participated: nodes,
            }),
            Err(e) => Err(e),
        }
    }

    /// Checks a signature of `message` under `key_name`: `check` is given
    /// the key's public key, the bytes that `signature_hex` stands for, and
    /// the message, and its answer is the result. A key the aggregator holds
    /// no public key for is refused with `KeyNotFound`, a signature that is
    /// not hexadecimal with `InvalidHex`, before anything is checked.
    pub fn verify<F>(&self, key_name: &str, signature_hex: &str, message: &[u8], check: F) -> (r: Result<
        bool,
        SunderError,
    >) where F: FnOnce(&K, Vec<u8>, &[u8]) -> Result<bool, SunderError>
        requires
            self.wf(),
            forall|pk: &K, sig: Vec<u8>, m: &[u8]| #[trigger] check.requires((pk, sig, m)),
        ensures
            verify_answer(*self, key_name@, signature_hex@, message, check, r),
    {
        let pubkey = match self.public_keys.get(key_name) {
            Some(k) => k,
            None => return Err(SunderError::KeyNotFound(String::from_str(key_name))),
        };
        match decode_hex(signature_hex) {
            Ok(sig) => {
                let ghost given = sig;
                let r = check(pubkey, sig, message);
                assert(check.ensures((&self.keys()[key_name@], given, message), r));
                r
            },
            Err(detail) => Err(SunderError::InvalidHex(detail)),
        }
    }

    /// One entry per key, in load order: the key's name, the scheme `bls04`,
    /// the aggregator's threshold cut to 16 bits, and share id 0, as the
    /// aggregator holds no share.
    pub fn list_keys(&self) -> (r: Vec<KeyInfo>)
        requires
            self.wf(),
        ensures
            r@.len() == self.key_names().len(),
            forall|i: int| 0 <= i < r@.len() ==> {
                &&& (#[trigger] r@[i]).name@ == self.key_names()[i]
                &&& r@[i].scheme@ == "bls04"@
                &&& r@[i].threshold == self.threshold as u16
                &&& r@[i].share_id == 0
            },
    {
        let mut r: Vec<KeyInfo> = Vec::new();
        let n = self.public_keys.len();
        let mut i: usize = 0;
        while i < n
            invariant
                self.wf(),
                n == self.key_names().len(),
                i <= n,
                r@.len() == i,
                forall|j: int| 0 <= j < i ==> {
                    &&& (#[trigger] r@[j]).name@ == self.key_names()[j]
                    &&& r@[j].scheme@ == "bls04"@
                    &&& r@[j].threshold == self.threshold as u16
                    &&& r@[j].share_id == 0
                },
            decreases n - i,
        {
            let name = self.public_keys.name_at(i).clone();
            r.push(KeyInfo {
                name,
                scheme: String::from_str("bls04"),
                threshold: self.threshold as u16,
                share_id: 0,
            });
            i = i + 1;
        }
        r
    }
}

} // verus!
