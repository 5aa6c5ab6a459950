//! A map from names to values that remembers the order in which the names came.

use vstd::prelude::*;

use crate::text;

verus! {

/// A map keyed by strings. Each key occurs once; a key keeps the place of its first insertion.
pub struct Table<V> {
    keys: Vec<String>,
    values: Vec<V>,
}

impl<V> View for Table<V> {
    type V = Map<Seq<char>, V>;

    closed spec fn view(&self) -> Map<Seq<char>, V> {
        Map::new(
            |key: Seq<char>| self.order().contains(key),
            |key: Seq<char>| self.values@[self.order().index_of(key)],
        )
    }
}

impl<V> Table<V> {
    /// The keys, in the order of their first insertion.
    pub closed spec fn order(&self) -> Seq<Seq<char>> {
        text::views(self.keys@)
    }

    /// Every key has one value and occurs once.
    pub closed spec fn wf(&self) -> bool {
        &&& self.keys@.len() == self.values@.len()
        &&& self.order().no_duplicates()
    }

    /// The keys of the map are those of the order, each listed once.
    pub proof fn lemma_order(&self)
        requires
            self.wf(),
        ensures
            self.order().no_duplicates(),
            forall|key: Seq<char>| #[trigger]
                self.order().contains(key) <==> self@.contains_key(key),
    {
    }

    /// A table without entries.
    pub fn new() -> (table: Self)
        ensures
            table.wf(),
            table@ == Map::<Seq<char>, V>::empty(),
            table.order() == Seq::<Seq<char>>::empty(),
    {
        let table = Table { keys: Vec::new(), values: Vec::new() };
        assert(table.order() =~= Seq::empty());
        assert(table@ =~= Map::empty());
        table
    }

    /// The position of `key` in the order.
    fn position(&self, key: &str) -> (position: Option<usize>)
        ensures
            match position {
                Some(at) => at < self.order().len() && self.order()[at as int] == key@,
                None => !self.order().contains(key@),
            },
    {
        let mut at: usize = 0;
        while at < self.keys.len()
            invariant
                at <= self.keys.len(),
                forall|i: int| 0 <= i < at ==> self.order()[i] != key@,
            decreases self.keys.len() - at,
        {
            if text::equal(self.keys[at].as_str(), key) {
                return Some(at);
            }
            at = at + 1;
        }
        None
    }

    /// Gives `key` the value `value`, whether or not it had one.
    pub fn insert(&mut self, key: String, value: V)
        requires
            old(self).wf(),
        ensures
            final(self).wf(),
            final(self)@ == old(self)@.insert(key@, value),
            final(self).order() == (if old(self)@.contains_key(key@) {
                old(self).order()
            } else {
                old(self).order().push(key@)
            }),
    {
        let ghost before = *self;
        match self.position(key.as_str()) {
            Some(at) => {
                self.values.set(at, value);
                assert(self.order() == before.order());
                assert(before.order().contains(key@));
                assert(self@ =~= before@.insert(key@, value)) by {
                    assert forall|k: Seq<char>| #[trigger]
                        before.order().contains(k) && k != key@ implies self@[k]
                        == before@[k] by {
                        assert(before.order().index_of(k) != at);
                    }
                    assert(before.order().index_of(key@) == at);
                }
            },
            None => {
                let ghost name = key@;
                self.keys.push(key);
                self.values.push(value);
                assert(self.order() =~= before.order().push(name));
                assert(self@ =~= before@.insert(name, value)) by {
                    assert(self.order()[before.order().len() as int] == name);
                    assert(self.order().index_of(name) == before.order().len());
                    assert forall|k: Seq<char>| #[trigger] before.order().contains(k) implies {
                        &&& self.order().contains(k)
                        &&& self@[k] == before@[k]
                    } by {
                        let i = before.order().index_of(k);
                        assert(self.order()[i] == k);
                        assert(self.order().index_of(k) == i);
                    }
                    assert forall|k: Seq<char>| #[trigger] self.order().contains(k) && k
                        != name implies before.order().contains(k) by {
                        let i = self.order().index_of(k);
                        assert(before.order()[i] == k);
                    }
                }
            },
        }
    }

    /// The value of `key`.
    pub fn get(&self, key: &str) -> (value: Option<&V>)
        requires
            self.wf(),
        ensures
            match value {
                Some(held) => self@.contains_key(key@) && *held == self@[key@],
                None => !self@.contains_key(key@),
            },
    {
        match self.position(key) {
            Some(at) => {
                assert(self.order().contains(key@));
                assert(self.order().index_of(key@) == at);
                Some(&self.values[at])
            },
            None => None,
        }
    }

    /// How many keys there are.
    pub fn len(&self) -> (n: usize)
        ensures
            n == self.order().len(),
    {
        self.keys.len()
    }

    /// Whether there is no key.
    pub fn is_empty(&self) -> (empty: bool)
        requires
            self.wf(),
        ensures
            empty == (self.order().len() == 0),
            empty == (self@ == Map::<Seq<char>, V>::empty()),
    {
        let empty = self.keys.len() == 0;
        proof {
            if empty {
                assert(self@ =~= Map::empty());
            } else {
                assert(self.order().contains(self.order()[0]));
                assert(self@.contains_key(self.order()[0]));
            }
        }
        empty
    }

    /// The key in place `at`.
    pub fn key_at(&self, at: usize) -> (key: &String)
        requires
            at < self.order().len(),
        ensures
            key@ == self.order()[at as int],
    {
        &self.keys[at]
    }

    /// The value of the key in place `at`.
    pub fn value_at(&self, at: usize) -> (value: &V)
        requires
            self.wf(),
            at < self.order().len(),
        ensures
            *value == self@[self.order()[at as int]],
    {
        assert(self.order().contains(self.order()[at as int]));
        assert(self.order().index_of(self.order()[at as int]) == at);
        &self.values[at]
    }
}

} // verus!
