//! A small map from names to values that keeps the order in which the names
//! were first inserted and never holds a name twice.

use crate::names::{first_index, lemma_first_index, lemma_first_index_is};
use vstd::prelude::*;

verus! {

/// The names of a sequence of named entries, in order.
pub open spec fn keys<V>(entries: Seq<(Seq<char>, V)>) -> Seq<Seq<char>> {
    entries.map_values(|entry: (Seq<char>, V)| entry.0)
}

/// The value under the first entry named `name`, if there is one.
pub open spec fn lookup<V>(entries: Seq<(Seq<char>, V)>, name: Seq<char>) -> Option<V> {
    match first_index(keys(entries), name) {
        Some(i) => Some(entries[i].1),
        None => None,
    }
}

/// An insertion-ordered map keyed by name.
#[derive(Debug)]
pub struct NameMap<T> {
    entries: Vec<(String, T)>,
}

impl<T> NameMap<T> {
    #[verifier::type_invariant]
    spec fn no_name_twice(&self) -> bool {
        self.names().no_duplicates()
    }

    /// The names held, in the order of their first insertion.
    pub closed spec fn names(&self) -> Seq<Seq<char>> {
        Self::names_of(self.entries@)
    }

    spec fn names_of(entries: Seq<(String, T)>) -> Seq<Seq<char>> {
        Seq::new(entries.len(), |i: int| entries[i].0@)
    }

    /// The values held, each at the index of its name.
    pub closed spec fn values(&self) -> Seq<T> {
        Seq::new(self.entries@.len(), |i: int| self.entries@[i].1)
    }

    /// There are as many values as names.
    pub proof fn lemma_lengths(&self)
        ensures
            self.names().len() == self.values().len(),
    {
    }

    /// An empty map.
    pub fn new() -> (map: Self)
        ensures
            map.names() == Seq::<Seq<char>>::empty(),
            map.values() == Seq::<T>::empty(),
    {
        NameMap { entries: Vec::new() }
    }

    /// What holds of every map: no name is held twice.
    pub fn names_are_distinct(&self)
        ensures
            self.names().no_duplicates(),
    {
        proof {
            use_type_invariant(self);
        }
    }

    /// The number of names held.
    pub fn len(&self) -> (n: usize)
        ensures
            n == self.names().len(),
            n == self.values().len(),
    {
        self.entries.len()
    }

    /// The name at index `i`.
    pub fn name_at(&self, i: usize) -> (name: &String)
        requires
            i < self.names().len(),
        ensures
            name@ == self.names()[i as int],
    {
        &self.entries[i].0
    }

    /// The value at index `i`.
    pub fn value_at(&self, i: usize) -> (value: &T)
        requires
            i < self.values().len(),
        ensures
            *value == self.values()[i as int],
    {
        &self.entries[i].1
    }

    /// The index of `name`, if it is held.
    pub fn position(&self, name: &String) -> (found: Option<usize>)
        ensures
            match found {
                Some(i) => first_index(self.names(), name@) == Some(i as int),
                None => first_index(self.names(), name@) is None,
            },
    {
        let mut i: usize = 0;
        while i < self.entries.len()
            invariant
                i <= self.entries.len(),
                forall|j: int| 0 <= j < i ==> self.names()[j] != name@,
            decreases self.entries.len() - i,
        {
            if self.entries[i].0 == *name {
                proof {
                    lemma_first_index_is(self.names(), name@, i as int);
                }
                return Some(i);
            }
            i += 1;
        }
        proof {
            lemma_first_index(self.names(), name@);
        }
        None
    }

    /// The value under `name`, if it is held.
    pub fn get(&self, name: &String) -> (found: Option<&T>)
        ensures
            match first_index(self.names(), name@) {
                Some(i) => found == Some(&self.values()[i]),
                None => found is None,
            },
    {
        proof {
            lemma_first_index(self.names(), name@);
        }
        match self.position(name) {
            Some(i) => Some(&self.entries[i].1),
            None => None,
        }
    }

    /// Whether `name` is held.
    pub fn contains_key(&self, name: &String) -> (found: bool)
        ensures
            found == self.names().contains(name@),
    {
        proof {
            lemma_first_index(self.names(), name@);
        }
        self.position(name).is_some()
    }

    /// Puts `value` under `name`: in place of the value already there, or
    /// behind all other entries where the name is new.
    pub fn insert(&mut self, name: String, value: T)
        ensures
            match first_index(old(self).names(), name@) {
                Some(i) => {
                    &&& final(self).names() == old(self).names()
                    &&& final(self).values() == old(self).values().update(i, value)
                },
                None => {
                    &&& final(self).names() == old(self).names().push(name@)
                    &&& final(self).values() == old(self).values().push(value)
                },
            },
    {
        proof {
            use_type_invariant(&*self);
            lemma_first_index(self.names(), name@);
        }
        let ghost before = *self;
        let found = self.position(&name);
        let mut entries: Vec<(String, T)> = Vec::new();
        std::mem::swap(&mut entries, &mut self.entries);
        match found {
            Some(i) => {
                entries[i] = (name, value);
            },
            None => {
                entries.push((name, value));
            },
        }
        proof {
            match found {
                Some(i) => {
                    assert(Self::names_of(entries@) =~= before.names());
                },
                None => {
                    assert(Self::names_of(entries@) =~= before.names().push(name@));
                },
            }
        }
        self.entries = entries;
    }
}

impl<T: View> View for NameMap<T> {
    type V = Seq<(Seq<char>, T::V)>;

    open spec fn view(&self) -> Seq<(Seq<char>, T::V)> {
        Seq::new(self.names().len(), |i: int| (self.names()[i], self.values()[i]@))
    }
}

/// The names of a map's view are the map's names.
pub proof fn lemma_view_keys<T: View>(map: NameMap<T>)
    ensures
        keys(map@) == map.names(),
{
}

} // verus!
