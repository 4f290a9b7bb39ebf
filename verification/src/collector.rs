//! Collection of partial signatures: the nodes are heard in node order, a
//! share that does not decode or deserialize is not counted, and the first
//! `threshold` valid shares, by node position, are kept.

use vstd::prelude::*;
use crate::error::SunderError;
use crate::hex_codec::{decode_hex, hex_decode, hex_valid};
use crate::types::PartialSigResponse;

verus! {

/// The shares kept after the outcomes of the first nodes have been seen, each
/// with the number of the node that sent it (counted from 1): a share is kept
/// while fewer than `threshold` have been kept; a node that failed gives none.
pub open spec fn collected<T>(threshold: nat, outcomes: Seq<Option<T>>) -> Seq<(nat, T)>
    decreases outcomes.len(),
{
    if outcomes.len() == 0 {
        Seq::empty()
    } else {
        let prev = collected(threshold, outcomes.drop_last());
        if prev.len() >= threshold {
            prev
        } else {
            match outcomes.last() {
                Some(r) => prev.push((outcomes.len(), r)),
                None => prev,
            }
        }
    }
}

/// How many of the outcomes are shares.
pub open spec fn successes<T>(outcomes: Seq<Option<T>>) -> nat
    decreases outcomes.len(),
{
    if outcomes.len() == 0 {
        0
    } else {
        successes(outcomes.drop_last()) + if outcomes.last() is Some { 1nat } else { 0nat }
    }
}

/// Whether `admitted` is what a node's reply counts for: nothing for no
/// reply or for share data that is not hexadecimal; else what `parse` gave
/// for the decoded bytes, or nothing when it refused them.
pub open spec fn admits<T, P: FnOnce(Vec<u8>) -> Result<T, SunderError>>(
    reply: Option<PartialSigResponse>,
    parse: P,
    admitted: Option<T>,
) -> bool {
    match reply {
        None => admitted is None,
        Some(r) => if !hex_valid(r.data@) {
            admitted is None
        } else {
            exists|bytes: Vec<u8>, out: Result<T, SunderError>| {
                &&& bytes@ == hex_decode(r.data@)
                &&& #[trigger] parse.ensures((bytes,), out)
                &&& match out {
                    Ok(t) => admitted == Some(t),
                    Err(_) => admitted is None,
                }
            }
        },
    }
}

/// A node that answers with a share whose data is hexadecimal, of any
/// length, and whose decoded bytes the scheme accepts, counts with the value
/// the scheme gave.
pub proof fn lemma_valid_share_counts<T, P: FnOnce(Vec<u8>) -> Result<T, SunderError>>(
    r: PartialSigResponse,
    parse: P,
    bytes: Vec<u8>,
    t: T,
)
    requires
        hex_valid(r.data@),
        bytes@ == hex_decode(r.data@),
        parse.ensures((bytes,), Ok::<T, SunderError>(t)),
    ensures
        admits(Some(r), parse, Some(t)),
{
    let out = Ok::<T, SunderError>(t);
    assert(bytes@ == hex_decode(r.data@) && parse.ensures((bytes,), out));
}

/// A share is passed over only for a reason: when its data is hexadecimal
/// and the scheme accepts whatever bytes it decodes to, the node is counted,
/// whatever the length of the data.
pub proof fn lemma_accepted_share_never_dropped<T, P: FnOnce(Vec<u8>) -> Result<T, SunderError>>(
    r: PartialSigResponse,
    parse: P,
    admitted: Option<T>,
)
    requires
        hex_valid(r.data@),
        forall|b: Vec<u8>, out: Result<T, SunderError>|
            b@ == hex_decode(r.data@) && #[trigger] parse.ensures((b,), out) ==> out is Ok,
        admits(Some(r), parse, admitted),
    ensures
        admitted is Some,
{
    let (b, out) = choose|b: Vec<u8>, out: Result<T, SunderError>| {
        &&& b@ == hex_decode(r.data@)
        &&& #[trigger] parse.ensures((b,), out)
        &&& match out {
            Ok(t) => admitted == Some(t),
            Err(_) => admitted is None,
        }
    };
    assert(out is Ok);
}

/// A node that gives no reply, or share data that is not hexadecimal, counts
/// for nothing.
pub proof fn lemma_no_share_counts_nothing<T, P: FnOnce(Vec<u8>) -> Result<T, SunderError>>(
    reply: Option<PartialSigResponse>,
    parse: P,
    admitted: Option<T>,
)
    requires
        reply is None || !hex_valid(reply->Some_0.data@),
        admits(reply, parse, admitted),
    ensures
        admitted is None,
{
}

/// Gathers node outcomes one at a time, in node order.
pub struct ShareCollector<T> {
    threshold: usize,
    node_count: usize,
    seen: usize,
    shares: Vec<T>,
    nodes_participated: Vec<usize>,
    outcomes: Ghost<Seq<Option<T>>>,
}

impl<T> ShareCollector<T> {
    /// The number of shares wanted.
    pub closed spec fn threshold(&self) -> nat {
        self.threshold as nat
    }

    /// The number of nodes that are asked.
    pub closed spec fn node_count(&self) -> nat {
        self.node_count as nat
    }

    /// The outcomes seen so far, in node order.
    pub closed spec fn outcomes(&self) -> Seq<Option<T>> {
        self.outcomes@
    }

    /// The shares kept so far.
    pub open spec fn kept(&self) -> Seq<(nat, T)> {
        collected(self.threshold(), self.outcomes())
    }

    pub closed spec fn wf(&self) -> bool {
        &&& self.outcomes@.len() == self.seen
        &&& self.seen <= self.node_count
        &&& self.shares@.len() == self.kept().len()
        &&& self.nodes_participated@.len() == self.kept().len()
        &&& forall|k: int| 0 <= k < self.kept().len() ==> {
            &&& self.shares@[k] == #[trigger] self.kept()[k].1
            &&& self.nodes_participated@[k] as nat == self.kept()[k].0
        }
    }

    /// A collector that wants `threshold` shares from `node_count` nodes and
    /// has seen nothing.
    pub fn new(threshold: usize, node_count: usize) -> (c: Self)
        ensures
            c.wf(),
            c.threshold() == threshold,
            c.node_count() == node_count,
            c.outcomes() == Seq::<Option<T>>::empty(),
    {
        ShareCollector {
            threshold,
            node_count,
            seen: 0,
            shares: Vec::new(),
            nodes_participated: Vec::new(),
            outcomes: Ghost(Seq::empty()),
        }
    }

    /// Whether fewer than `threshold` shares have been kept, so the next node
    /// is still to be heard.
    pub fn wants_more(&self) -> (r: bool)
        requires
            self.wf(),
        ensures
            r == (self.kept().len() < self.threshold()),
    {
        self.shares.len() < self.threshold
    }

    /// Takes what the next node answered: nothing when it could not be
    /// reached or its answer did not parse, else its response. The share
    /// counts only when its data is hexadecimal and `parse` accepts the
    /// bytes; the value `parse` gives is what is kept.
    pub fn record<P>(&mut self, reply: Option<PartialSigResponse>, parse: P)
        where P: FnOnce(Vec<u8>) -> Result<T, SunderError>
        requires
            old(self).wf(),
            old(self).outcomes().len() < old(self).node_count(),
            old(self).kept().len() < old(self).threshold(),
            forall|bytes: Vec<u8>| #[trigger] parse.requires((bytes,)),
        ensures
            final(self).wf(),
            final(self).threshold() == old(self).threshold(),
            final(self).node_count() == old(self).node_count(),
            final(self).outcomes().len() == old(self).outcomes().len() + 1,
            final(self).outcomes().drop_last() == old(self).outcomes(),
            admits(reply, parse, final(self).outcomes().last()),
    {
        let admitted: Option<T> = match reply {
            None => None,
            Some(r) => match decode_hex(r.data.as_str()) {
                Err(_) => None,
                Ok(bytes) => {
                    let ghost given = bytes;
                    let out = parse(bytes);
                    assert(parse.ensures((given,), out));
                    match out {
                        Ok(t) => Some(t),
                        Err(_) => None,
                    }
                },
            },
        };
        let ghost prev_outcomes = self.outcomes@;
        let ghost new_outcomes = prev_outcomes.push(admitted);
        assert(new_outcomes.drop_last() =~= prev_outcomes);
        assert(new_outcomes.last() == admitted);
        assert(collected(self.threshold as nat, new_outcomes) == match admitted {
            Some(t) => collected(self.threshold as nat, prev_outcomes).push((new_outcomes.len(), t)),
            None => collected(self.threshold as nat, prev_outcomes),
        });
        self.seen = self.seen + 1;
        let node = self.seen;
        match admitted {
            Some(t) => {
                self.shares.push(t);
                self.nodes_participated.push(node);
            },
            None => {},
        }
        self.outcomes = Ghost(new_outcomes);
    }

    /// No more nodes are heard than are asked.
    pub proof fn lemma_heard_at_most_asked(&self)
        requires
            self.wf(),
        ensures
            self.outcomes().len() <= self.node_count(),
    {
    }

    /// Whether every node has been heard.
    pub fn all_heard(&self) -> (r: bool)
        requires
            self.wf(),
        ensures
            r == (self.outcomes().len() == self.node_count()),
    {
        self.seen == self.node_count
    }

    /// The number of outcomes seen.
    pub fn seen(&self) -> (n: usize)
        requires
            self.wf(),
        ensures
            n == self.outcomes().len(),
    {
        self.seen
    }

    /// The kept shares and the numbers of the nodes that sent them, if there
    /// are `threshold` of them; else the shortfall.
    pub fn finish(self) -> (r: Result<(Vec<T>, Vec<usize>), SunderError>)
        requires
            self.wf(),
        ensures
            r is Ok <==> self.kept().len() >= self.threshold(),
            r matches Ok((shares, nodes)) ==> {
                &&& shares@.len() == self.kept().len()
                &&& nodes@.len() == self.kept().len()
                &&& forall|k: int| 0 <= k < self.kept().len() ==> {
                    &&& shares@[k] == #[trigger] self.kept()[k].1
                    &&& nodes@[k] as nat == self.kept()[k].0
                }
            },
            r matches Err(e) ==> e == (SunderError::InsufficientShares {
                need: self.threshold() as usize,
                got: self.kept().len() as usize,
            }),
    {
        if self.shares.len() < self.threshold {
            Err(SunderError::InsufficientShares { need: self.threshold, got: self.shares.len() })
        } else {
            Ok((self.shares, self.nodes_participated))
        }
    }
}

/// Never more than `threshold` shares are kept, and fewer only when fewer
/// nodes answered with a share: the number kept is the smaller of the two.
pub proof fn lemma_collected_len<T>(threshold: nat, outcomes: Seq<Option<T>>)
    ensures
        collected(threshold, outcomes).len() == if successes(outcomes) < threshold {
            successes(outcomes)
        } else {
            threshold
        },
    decreases outcomes.len(),
{
    if outcomes.len() > 0 {
        lemma_collected_len(threshold, outcomes.drop_last());
    }
}

/// Signing goes on while nodes are down or faulty: the outcomes count only
/// shares that decoded and deserialized, so when at least `threshold` nodes
/// answer with a valid share, `threshold` shares are collected, whatever the
/// others answered.
pub proof fn lemma_enough_answers_suffice<T>(threshold: nat, outcomes: Seq<Option<T>>)
    requires
        successes(outcomes) >= threshold,
    ensures
        collected(threshold, outcomes).len() == threshold,
{
    lemma_collected_len(threshold, outcomes);
}

/// A signature is made of exactly `threshold` shares: collection never
/// keeps more, so when it is complete it holds that many.
pub proof fn lemma_complete_means_exactly_threshold<T>(threshold: nat, outcomes: Seq<Option<T>>)
    ensures
        collected(threshold, outcomes).len() <= threshold,
        collected(threshold, outcomes).len() >= threshold ==> collected(threshold, outcomes).len() == threshold,
{
    lemma_collected_len(threshold, outcomes);
}

/// Collection ends with a signature's worth of shares exactly when at
/// least `threshold` nodes answered with a share.
pub proof fn lemma_complete_iff_enough_answers<T>(threshold: nat, outcomes: Seq<Option<T>>)
    ensures
        collected(threshold, outcomes).len() >= threshold <==> successes(outcomes) >= threshold,
{
    lemma_collected_len(threshold, outcomes);
}

/// With the first `threshold` nodes all answering, their shares are the
/// ones kept, from nodes `1` to `threshold` in order.
pub proof fn lemma_first_nodes_up<T>(threshold: nat, outcomes: Seq<Option<T>>)
    requires
        threshold <= outcomes.len(),
        forall|i: int| 0 <= i < threshold ==> #[trigger] outcomes[i] is Some,
    ensures
        collected(threshold, outcomes).len() == threshold,
        forall|k: int| 0 <= k < threshold ==> #[trigger] collected(threshold, outcomes)[k].0 == k + 1,
    decreases outcomes.len(),
{
    let prev_outcomes = outcomes.drop_last();
    if outcomes.len() > threshold {
        assert forall|i: int| 0 <= i < threshold implies #[trigger] prev_outcomes[i] is Some by {
            assert(prev_outcomes[i] == outcomes[i]);
        }
        lemma_first_nodes_up(threshold, prev_outcomes);
        assert(collected(threshold, outcomes) == collected(threshold, prev_outcomes));
    } else {
        lemma_prefix_all_up(threshold, outcomes, outcomes.len());
        assert(outcomes.take(outcomes.len() as int) =~= outcomes);
    }
}

proof fn lemma_prefix_all_up<T>(threshold: nat, outcomes: Seq<Option<T>>, n: nat)
    requires
        n <= threshold,
        n <= outcomes.len(),
        forall|i: int| 0 <= i < n ==> #[trigger] outcomes[i] is Some,
    ensures
        collected(threshold, outcomes.take(n as int)).len() == n,
        forall|k: int| 0 <= k < n ==> #[trigger] collected(threshold, outcomes.take(n as int))[k].0 == k + 1,
    decreases n,
{
    if n > 0 {
        lemma_prefix_all_up(threshold, outcomes, (n - 1) as nat);
        assert(outcomes.take(n as int).drop_last() =~= outcomes.take(n - 1));
        assert(outcomes.take(n as int).last() == outcomes[n - 1]);
    }
}

/// Every kept share is what the node with that number sent, the node numbers
/// rise strictly, and each is the number of a node that was heard.
pub proof fn lemma_collected_from_nodes<T>(threshold: nat, outcomes: Seq<Option<T>>)
    ensures
        forall|k: int| 0 <= k < collected(threshold, outcomes).len() ==> {
            let (n, r) = #[trigger] collected(threshold, outcomes)[k];
            &&& 1 <= n <= outcomes.len()
            &&& outcomes[n - 1] == Some(r)
        },
        forall|j: int, k: int| 0 <= j < k < collected(threshold, outcomes).len() ==>
            #[trigger] collected(threshold, outcomes)[j].0 < #[trigger] collected(threshold, outcomes)[k].0,
    decreases outcomes.len(),
{
    if outcomes.len() > 0 {
        let prev_outcomes = outcomes.drop_last();
        lemma_collected_from_nodes(threshold, prev_outcomes);
        let prev = collected(threshold, prev_outcomes);
        let cur = collected(threshold, outcomes);
        assert forall|k: int| 0 <= k < cur.len() implies {
            let (n, r) = #[trigger] cur[k];
            &&& 1 <= n <= outcomes.len()
            &&& outcomes[n - 1] == Some(r)
        } by {
            if k < prev.len() {
                assert(cur[k] == prev[k]);
                let (n, r) = prev[k];
                assert(outcomes[n - 1] == prev_outcomes[n - 1]);
            }
        }
        assert forall|j: int, k: int| 0 <= j < k < cur.len() implies
            #[trigger] cur[j].0 < #[trigger] cur[k].0 by {
            if k < prev.len() {
                assert(cur[j] == prev[j]);
                assert(cur[k] == prev[k]);
            } else {
                assert(cur[j] == prev[j]);
                assert(1 <= prev[j].0 <= prev_outcomes.len());
            }
        }
    }
}

} // verus!
