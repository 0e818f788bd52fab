//! An ordered key/value store with byte-exact keys. Entries are kept in
//! insertion order and a lookup returns the value of the *last* entry with
//! the key, so inserting again under the same name overwrites the earlier
//! value without disturbing the recorded order.

use crate::strutil::str_eq;
use vstd::prelude::*;

verus! {

/// The value of the last entry whose key equals `k`, if any.
pub open spec fn assoc(entries: Seq<(Seq<char>, Seq<char>)>, k: Seq<char>) -> Option<Seq<char>>
    decreases entries.len(),
{
    if entries.len() == 0 {
        None
    } else if entries.last().0 == k {
        Some(entries.last().1)
    } else {
        assoc(entries.drop_last(), k)
    }
}

/// Writing an entry makes its value the one lookups of that key return:
/// the latest write wins.
pub proof fn lemma_assoc_push_same(
    entries: Seq<(Seq<char>, Seq<char>)>,
    k: Seq<char>,
    v: Seq<char>,
)
    ensures
        assoc(entries.push((k, v)), k) == Some(v),
{
}

/// Writing an entry leaves lookups of every other key unchanged.
pub proof fn lemma_assoc_push_other(
    entries: Seq<(Seq<char>, Seq<char>)>,
    k: Seq<char>,
    v: Seq<char>,
    other: Seq<char>,
)
    requires
        other != k,
    ensures
        assoc(entries.push((k, v)), other) == assoc(entries, other),
{
    assert(entries.push((k, v)).drop_last() =~= entries);
}

/// An ordered list of key/value entries with last-write-wins lookup.
pub struct KvList {
    entries: Vec<(String, String)>,
}

impl View for KvList {
    type V = Seq<(Seq<char>, Seq<char>)>;

    closed spec fn view(&self) -> Seq<(Seq<char>, Seq<char>)> {
        self.entries@.map_values(|p: (String, String)| (p.0@, p.1@))
    }
}

impl KvList {
    /// Creates an empty store.
    pub fn new() -> (r: Self)
        ensures
            r@ == Seq::<(Seq<char>, Seq<char>)>::empty(),
    {
        let r = KvList { entries: Vec::new() };
        proof {
            assert(r@ =~= Seq::<(Seq<char>, Seq<char>)>::empty());
        }
        r
    }

    /// Builds a store from a list of entries, keeping their order.
    pub fn from_entries(entries: Vec<(String, String)>) -> (r: Self)
        ensures
            r@ == entries@.map_values(|p: (String, String)| (p.0@, p.1@)),
    {
        KvList { entries }
    }

    /// Appends an entry; a later entry with the same key wins lookups.
    pub fn insert(&mut self, key: &str, value: &str)
        ensures
            final(self)@ == old(self)@.push((key@, value@)),
    {
        self.entries.push((key.to_owned(), value.to_owned()));
        proof {
            assert(self@ =~= old(self)@.push((key@, value@)));
        }
    }

    /// Looks the key up, returning the most recently inserted value for it.
    pub fn get(&self, key: &str) -> (r: Option<String>)
        ensures
            match r {
                Some(v) => assoc(self@, key@) == Some(v@),
                None => assoc(self@, key@) is None,
            },
    {
        let mut i: usize = self.entries.len();
        proof {
            assert(self@.len() == self.entries@.len());
            assert(self@.take(i as int) =~= self@);
        }
        while i > 0
            invariant
                i <= self.entries.len(),
                self@.len() == self.entries@.len(),
                assoc(self@, key@) == assoc(self@.take(i as int), key@),
            decreases i,
        {
            i -= 1;
            proof {
                assert(self@[i as int] == (self.entries@[i as int].0@, self.entries@[i as int].1@));
                assert(self@.take(i + 1).last() == self@[i as int]);
            }
            if str_eq(self.entries[i].0.as_str(), key) {
                let v = self.entries[i].1.clone();
                return Some(v);
            }
            proof {
                assert(self@.take(i + 1).drop_last() =~= self@.take(i as int));
            }
        }
        proof {
            assert(self@.take(0) =~= Seq::<(Seq<char>, Seq<char>)>::empty());
        }
        None
    }

    /// The number of entries, duplicate keys counted.
    pub fn len(&self) -> (n: usize)
        ensures
            n == self@.len(),
    {
        self.entries.len()
    }

    /// A copy of the entry at `i`, in insertion order.
    pub fn entry_at(&self, i: usize) -> (r: (String, String))
        requires
            i < self@.len(),
        ensures
            (r.0@, r.1@) == self@[i as int],
    {
        let e = &self.entries[i];
        (e.0.clone(), e.1.clone())
    }
}

} // verus!
