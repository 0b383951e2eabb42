//! A table from names to values that keeps the order in which the names came.

use vstd::prelude::*;
use crate::text::str_eq;

verus! {

/// A table from names to values, in the order in which the names were first
/// inserted. A table built by `new` and `insert` holds no name twice.
#[derive(Debug)]
pub struct NameTable<V> {
    entries: Vec<(String, V)>,
}

impl<V> NameTable<V> {
    /// The names of the table, in order.
    pub closed spec fn names(self) -> Seq<Seq<char>> {
        self.entries@.map_values(|e: (String, V)| e.0@)
    }

    /// The values of the table, each at the place of its name.
    pub closed spec fn values(self) -> Seq<V> {
        self.entries@.map_values(|e: (String, V)| e.1)
    }

    /// No name occurs twice.
    pub open spec fn distinct(self) -> bool {
        forall|i: int, j: int|
            0 <= i < j < self.names().len() ==> self.names()[i] != self.names()[j]
    }

    /// Whether the table has an entry for `name`.
    pub open spec fn contains(self, name: Seq<char>) -> bool {
        exists|i: int| 0 <= i < self.names().len() && self.names()[i] == name
    }

    /// `i` is the first place at which `name` stands.
    pub open spec fn first_at(self, name: Seq<char>, i: int) -> bool {
        &&& 0 <= i < self.names().len()
        &&& self.names()[i] == name
        &&& forall|j: int| 0 <= j < i ==> self.names()[j] != name
    }

    /// The first place of `name` in the table.
    pub open spec fn place(self, name: Seq<char>) -> int {
        choose|i: int| self.first_at(name, i)
    }

    /// The value under `name`, where the table has one.
    pub open spec fn lookup(self, name: Seq<char>) -> Option<V> {
        if self.contains(name) {
            Some(self.values()[self.place(name)])
        } else {
            None
        }
    }

    /// A table has as many values as names.
    pub proof fn lemma_len(self)
        ensures
            self.names().len() == self.values().len(),
    {
    }

    /// The first place at which a name stands is its place.
    pub proof fn lemma_first_at(self, name: Seq<char>, i: int)
        requires
            self.first_at(name, i),
        ensures
            self.contains(name),
            self.place(name) == i,
            self.lookup(name) == Some(self.values()[i]),
    {
        let p = self.place(name);
        assert(self.first_at(name, p));
        if p < i {
            assert(self.names()[p] != name);
        }
        if i < p {
            assert(self.names()[i] != name);
        }
    }

    /// In a table without repeated names, each entry is the one that a lookup
    /// of its name finds.
    pub proof fn lemma_lookup_at(self, i: int)
        requires
            self.distinct(),
            0 <= i < self.names().len(),
        ensures
            self.contains(self.names()[i]),
            self.place(self.names()[i]) == i,
            self.lookup(self.names()[i]) == Some(self.values()[i]),
    {
        assert(self.first_at(self.names()[i], i));
        self.lemma_first_at(self.names()[i], i);
    }

    /// The empty table.
    pub fn new() -> (t: Self)
        ensures
            t.names() == Seq::<Seq<char>>::empty(),
            t.values() == Seq::<V>::empty(),
            t.distinct(),
    {
        let t = NameTable { entries: Vec::new() };
        assert(t.names() =~= Seq::<Seq<char>>::empty());
        assert(t.values() =~= Seq::<V>::empty());
        t
    }

    /// The number of entries.
    pub fn len(&self) -> (n: usize)
        ensures
            n == self.names().len(),
            n == self.values().len(),
    {
        self.entries.len()
    }

    /// Whether the table has no entry.
    pub fn is_empty(&self) -> (b: bool)
        ensures
            b == (self.names().len() == 0),
    {
        self.entries.len() == 0
    }

    /// The first place of `name`, where the table has it.
    pub fn find(&self, name: &str) -> (r: Option<usize>)
        ensures
            match r {
                Some(i) => self.first_at(name@, i as int) && self.contains(name@) && self.place(
                    name@,
                ) == i,
                None => !self.contains(name@),
            },
    {
        let mut i: usize = 0;
        while i < self.entries.len()
            invariant
                i <= self.entries@.len(),
                forall|j: int| 0 <= j < i ==> self.names()[j] != name@,
            decreases self.entries@.len() - i,
        {
            if str_eq(self.entries[i].0.as_str(), name) {
                proof {
                    self.lemma_first_at(name@, i as int);
                }
                return Some(i);
            }
            i = i + 1;
        }
        None
    }

    /// The value under `name`, where the table has one.
    pub fn get(&self, name: &str) -> (r: Option<&V>)
        ensures
            match r {
                Some(v) => self.lookup(name@) == Some(*v),
                None => self.lookup(name@) is None,
            },
    {
        match self.find(name) {
            Some(i) => Some(&self.entries[i].1),
            None => None,
        }
    }

    /// Whether the table has an entry for `name`.
    pub fn contains_key(&self, name: &str) -> (b: bool)
        ensures
            b == self.contains(name@),
    {
        self.find(name).is_some()
    }

    /// The name at place `i`.
    pub fn name_at(&self, i: usize) -> (name: &String)
        requires
            i < self.names().len(),
        ensures
            name@ == self.names()[i as int],
    {
        &self.entries[i].0
    }

    /// The value at place `i`.
    pub fn value_at(&self, i: usize) -> (v: &V)
        requires
            i < self.values().len(),
        ensures
            *v == self.values()[i as int],
    {
        &self.entries[i].1
    }

    /// Puts `value` under `name`. A name that the table has keeps its place
    /// and gives its former value back; a new name goes to the end.
    pub fn insert(&mut self, name: String, value: V) -> (former: Option<V>)
        ensures
            former == old(self).lookup(name@),
            match former {
                Some(_) => {
                    &&& final(self).names() == old(self).names()
                    &&& final(self).values() == old(self).values().update(
                        old(self).place(name@),
                        value,
                    )
                },
                None => {
                    &&& final(self).names() == old(self).names().push(name@)
                    &&& final(self).values() == old(self).values().push(value)
                },
            },
            old(self).distinct() ==> final(self).distinct(),
    {
        match self.find(name.as_str()) {
            Some(i) => {
                self.entries.push((name, value));
                let former = self.entries.swap_remove(i);
                proof {
                    assert(final(self).names() =~= old(self).names());
                    assert(final(self).values() =~= old(self).values().update(i as int, value));
                }
                Some(former.1)
            },
            None => {
                self.entries.push((name, value));
                proof {
                    assert(final(self).names() =~= old(self).names().push(name@));
                    assert(final(self).values() =~= old(self).values().push(value));
                    if old(self).distinct() {
                        assert forall|i: int, j: int|
                            0 <= i < j < final(self).names().len() implies final(self).names()[i]
                            != final(self).names()[j] by {
                            if j == final(self).names().len() - 1 {
                                assert(old(self).names()[i] == final(self).names()[i]);
                            }
                        }
                    }
                }
                None
            },
        }
    }
}

} // verus!
