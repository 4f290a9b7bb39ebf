//! A table of values keyed by name, in the order in which the names were
//! first inserted, with no name twice.

use vstd::prelude::*;
use crate::text::str_eq;

verus! {

/// Values keyed by name. Inserting under a name already present replaces
/// its value and keeps its place.
pub struct KeyTable<V> {
    entries: Vec<(String, V)>,
    contents: Ghost<Map<Seq<char>, V>>,
}

impl<V> View for KeyTable<V> {
    type V = Map<Seq<char>, V>;

    closed spec fn view(&self) -> Map<Seq<char>, V> {
        self.contents@
    }
}

impl<V> KeyTable<V> {
    /// The names, in insertion order.
    pub closed spec fn names(&self) -> Seq<Seq<char>> {
        self.entries@.map_values(|e: (String, V)| e.0@)
    }

    /// No name occurs twice, and the map holds exactly the listed names with
    /// their values.
    pub closed spec fn wf(&self) -> bool {
        &&& forall|i: int, j: int|
            0 <= i < j < self.entries@.len() ==> self.entries@[i].0@ != self.entries@[j].0@
        &&& forall|i: int|
            0 <= i < self.entries@.len() ==> {
                &&& self.contents@.contains_key(#[trigger] self.entries@[i].0@)
                &&& self.contents@[self.entries@[i].0@] == self.entries@[i].1
            }
        &&& forall|k: Seq<char>|
            #[trigger] self.contents@.contains_key(k) ==> exists|i: int|
                0 <= i < self.entries@.len() && self.entries@[i].0@ == k
    }

    /// What a well-formed table's names and map have to do with each other.
    pub proof fn lemma_names(&self)
        requires
            self.wf(),
        ensures
            self.names().no_duplicates(),
            forall|k: Seq<char>| #[trigger] self@.contains_key(k) <==> self.names().contains(k),
            forall|i: int| 0 <= i < self.names().len() ==> #[trigger] self@.contains_key(self.names()[i]),
    {
        assert forall|k: Seq<char>| #[trigger] self@.contains_key(k) <==> self.names().contains(k) by {
            if self@.contains_key(k) {
                let i = choose|i: int| 0 <= i < self.entries@.len() && self.entries@[i].0@ == k;
                assert(self.names()[i] == k);
            }
            if self.names().contains(k) {
                let i = choose|i: int| 0 <= i < self.names().len() && self.names()[i] == k;
                assert(self.entries@[i].0@ == k);
            }
        }
        assert forall|i: int| 0 <= i < self.names().len() implies #[trigger] self@.contains_key(self.names()[i]) by {
            assert(self.names()[i] == self.entries@[i].0@);
        }
    }

    /// An empty table.
    pub fn new() -> (t: Self)
        ensures
            t.wf(),
            t@ == Map::<Seq<char>, V>::empty(),
            t.names() == Seq::<Seq<char>>::empty(),
    {
        let t = KeyTable { entries: Vec::new(), contents: Ghost(Map::empty()) };
        assert(t.names() =~= Seq::<Seq<char>>::empty());
        t
    }

    /// The number of names.
    pub fn len(&self) -> (n: usize)
        ensures
            n == self.names().len(),
    {
        self.entries.len()
    }

    /// The position of `name`, if it is present.
    fn find(&self, name: &str) -> (r: Option<usize>)
        requires
            self.wf(),
        ensures
            match r {
                Some(i) => i < self.names().len() && self.names()[i as int] == name@,
                None => !self@.contains_key(name@),
            },
    {
        let n = self.entries.len();
        let mut i: usize = 0;
        while i < n
            invariant
                self.wf(),
                n == self.entries@.len(),
                i <= n,
                forall|j: int| 0 <= j < i ==> self.entries@[j].0@ != name@,
            decreases n - i,
        {
            if str_eq(self.entries[i].0.as_str(), name) {
                return Some(i);
            }
            i = i + 1;
        }
        proof {
            if self@.contains_key(name@) {
                let j = choose|j: int| 0 <= j < self.entries@.len() && self.entries@[j].0@ == name@;
                assert(false);
            }
        }
        None
    }

    /// The value stored under `name`.
    pub fn get(&self, name: &str) -> (r: Option<&V>)
        requires
            self.wf(),
        ensures
            r is Some <==> self@.contains_key(name@),
            r matches Some(v) ==> *v == self@[name@],
    {
        match self.find(name) {
            Some(i) => Some(&self.entries[i].1),
            None => None,
        }
    }

    /// Whether `name` is present.
    pub fn contains(&self, name: &str) -> (r: bool)
        requires
            self.wf(),
        ensures
            r == self@.contains_key(name@),
    {
        self.find(name).is_some()
    }

    /// The name at position `i`.
    pub fn name_at(&self, i: usize) -> (r: &String)
        requires
            i < self.names().len(),
        ensures
            r@ == self.names()[i as int],
    {
        &self.entries[i].0
    }

    /// The value at position `i`.
    pub fn value_at(&self, i: usize) -> (r: &V)
        requires
            self.wf(),
            i < self.names().len(),
        ensures
            *r == self@[self.names()[i as int]],
    {
        &self.entries[i].1
    }

    /// Stores `value` under `name`, replacing any value stored there. A new
    /// name goes last; a name already present keeps its place.
    pub fn insert(&mut self, name: String, value: V)
        requires
            old(self).wf(),
        ensures
            final(self).wf(),
            final(self)@ == old(self)@.insert(name@, value),
            final(self).names() == if old(self)@.contains_key(name@) {
                old(self).names()
            } else {
                old(self).names().push(name@)
            },
    {
        let ghost key = name@;
        match self.find(name.as_str()) {
            Some(i) => {
                self.entries.set(i, (name, value));
                self.contents = Ghost(self.contents@.insert(key, value));
                assert(self.names() =~= old(self).names());
                assert forall|k: Seq<char>| #[trigger] self.contents@.contains_key(k) implies exists|j: int|
                    0 <= j < self.entries@.len() && self.entries@[j].0@ == k by {
                    if k != key {
                        assert(old(self).contents@.contains_key(k));
                        let j = choose|j: int| 0 <= j < old(self).entries@.len() && old(self).entries@[j].0@ == k;
                        assert(self.entries@[j].0@ == k);
                    } else {
                        assert(self.entries@[i as int].0@ == k);
                    }
                }
            }
            None => {
                self.entries.push((name, value));
                self.contents = Ghost(self.contents@.insert(key, value));
                assert(self.names() =~= old(self).names().push(key));
                assert forall|k: Seq<char>| #[trigger] self.contents@.contains_key(k) implies exists|j: int|
                    0 <= j < self.entries@.len() && self.entries@[j].0@ == k by {
                    if k != key {
                        assert(old(self).contents@.contains_key(k));
                        let j = choose|j: int| 0 <= j < old(self).entries@.len() && old(self).entries@[j].0@ == k;
                        assert(self.entries@[j].0@ == k);
                    } else {
                        assert(self.entries@[old(self).entries@.len() as int].0@ == k);
                    }
                }
            }
        }
    }

    /// A read gives back the last write: after storing `value` under `name`,
    /// the table holds `value` there, and every other name keeps what it
    /// had, or stays absent.
    pub proof fn lemma_read_after_write(before: &Self, after: &Self, name: Seq<char>, value: V)
        requires
            after@ == before@.insert(name, value),
        ensures
            after@.contains_key(name),
            after@[name] == value,
            forall|other: Seq<char>| other != name ==> (#[trigger] after@.contains_key(other) <==> before@.contains_key(other)),
            forall|other: Seq<char>| other != name && before@.contains_key(other) ==> #[trigger] after@[other] == before@[other],
    {
    }

    /// The names, in order, as strings.
    pub fn name_list(&self) -> (r: Vec<String>)
        ensures
            crate::text::string_views(r@) == self.names(),
    {
        let mut r: Vec<String> = Vec::new();
        let n = self.entries.len();
        let mut i: usize = 0;
        while i < n
            invariant
                n == self.entries@.len(),
                i <= n,
                crate::text::string_views(r@) == self.names().take(i as int),
            decreases n - i,
        {
            let ghost before = r@;
            let c = self.entries[i].0.clone();
            assert(c@ == self.names()[i as int]);
            r.push(c);
            assert(r@ == before.push(c));
            assert(crate::text::string_views(before).len() == before.len());
            assert(before.len() == i);
            assert(crate::text::string_views(r@).len() == r@.len());
            i = i + 1;
            assert(crate::text::string_views(r@) =~= self.names().take(i as int));
        }
        assert(self.names().take(n as int) =~= self.names());
        r
    }
}

} // verus!
