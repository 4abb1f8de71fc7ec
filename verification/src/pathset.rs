//! A set of path strings, kept in the order in which they were first seen.

use vstd::prelude::*;
use crate::text::str_equal;

verus! {

/// A set of path strings. No string is held twice.
#[derive(Debug, Clone)]
pub struct PathSet {
    items: Vec<String>,
}

impl View for PathSet {
    type V = Set<Seq<char>>;

    /// The strings of the set.
    open spec fn view(&self) -> Set<Seq<char>> {
        self.texts().to_set()
    }
}

impl PathSet {
    /// The strings of the set, in the order in which they were inserted.
    pub closed spec fn texts(&self) -> Seq<Seq<char>> {
        self.items@.map_values(|s: String| s@)
    }

    /// No string is listed twice.
    pub open spec fn wf(&self) -> bool {
        self.texts().no_duplicates()
    }

    /// The empty set.
    pub fn new() -> (set: PathSet)
        ensures
            set.wf(),
            set.texts() == Seq::<Seq<char>>::empty(),
            set@ == Set::<Seq<char>>::empty(),
    {
        let set = PathSet { items: Vec::new() };
        assert(set.texts() =~= Seq::<Seq<char>>::empty());
        assert(set@ =~= Set::<Seq<char>>::empty());
        set
    }

    /// Whether `path` is in the set.
    pub fn contains(&self, path: &str) -> (found: bool)
        ensures
            found == self@.contains(path@),
    {
        let mut i: usize = 0;
        while i < self.items.len()
            invariant
                i <= self.items.len(),
                forall|j: int| 0 <= j < i ==> self.texts()[j] != path@,
            decreases self.items.len() - i,
        {
            if str_equal(self.items[i].as_str(), path) {
                assert(self.texts()[i as int] == path@);
                return true;
            }
            i += 1;
        }
        false
    }

    /// Adds `path` to the set and says whether it was new.
    pub fn insert(&mut self, path: String) -> (added: bool)
        requires
            old(self).wf(),
        ensures
            final(self).wf(),
            final(self)@ == old(self)@.insert(path@),
            added == !old(self)@.contains(path@),
            final(self).texts() == if added {
                old(self).texts().push(path@)
            } else {
                old(self).texts()
            },
    {
        if self.contains(path.as_str()) {
            assert(self@ =~= self@.insert(path@));
            false
        } else {
            let ghost before = self.texts();
            self.items.push(path);
            assert(self.texts() =~= before.push(path@));
            assert(self@ =~= before.to_set().insert(path@)) by {
                assert forall|t: Seq<char>| before.push(path@).contains(t) <==> (t == path@
                    || before.contains(t)) by {
                    if before.contains(t) {
                        let j = choose|j: int| 0 <= j < before.len() && before[j] == t;
                        assert(before.push(path@)[j] == t);
                    }
                    if t == path@ {
                        assert(before.push(path@)[before.len() as int] == t);
                    }
                }
            }
            true
        }
    }

    /// The number of strings in the set.
    pub fn len(&self) -> (n: usize)
        requires
            self.wf(),
        ensures
            n == self@.len(),
            n == self.texts().len(),
    {
        proof {
            self.texts().unique_seq_to_set();
        }
        self.items.len()
    }

    /// Whether the set holds nothing.
    pub fn is_empty(&self) -> (empty: bool)
        ensures
            empty == (self@ == Set::<Seq<char>>::empty()),
    {
        let empty = self.items.len() == 0;
        proof {
            if empty {
                assert(self@ =~= Set::<Seq<char>>::empty());
            } else {
                assert(self.texts().contains(self.texts()[0]));
                assert(self@.contains(self.texts()[0]));
            }
        }
        empty
    }

    /// The strings of the set, in the order in which they were inserted.
    pub fn as_slice(&self) -> (paths: &[String])
        ensures
            paths@.map_values(|s: String| s@) == self.texts(),
    {
        self.items.as_slice()
    }
}

} // verus!
