//! The parameter list: a borrowed, ordered view over `(key, value)` text pairs.

use vstd::prelude::*;

verus! {

/// A borrowed, ordered list of `(key, value)` pairs. Keys may repeat and the
/// order is exactly the one the list was built with.
#[derive(Debug, Clone)]
pub struct Params<'de>(&'de [(&'de str, &'de str)]);

/// The mathematical content of one entry: its key and its value as text.
pub type Entry = (Seq<char>, Seq<char>);

/// The texts of `strs`, in the same order.
pub open spec fn strs_text(strs: Seq<&str>) -> Seq<Seq<char>> {
    Seq::new(strs.len(), |i: int| strs[i]@)
}

/// The texts of `pairs`, in the same order.
pub open spec fn entries_text(pairs: Seq<(&str, &str)>) -> Seq<Entry> {
    Seq::new(pairs.len(), |i: int| (pairs[i].0@, pairs[i].1@))
}

/// The values of `entries`, in the same order, with the keys dropped.
pub open spec fn values_of(entries: Seq<Entry>) -> Seq<Seq<char>> {
    Seq::new(entries.len(), |i: int| entries[i].1)
}

impl<'de> View for Params<'de> {
    type V = Seq<Entry>;

    closed spec fn view(&self) -> Seq<Entry> {
        entries_text(self.0@)
    }
}

impl<'de> Params<'de> {
    /// A view over `entries`; nothing is copied.
    pub fn new(entries: &'de [(&'de str, &'de str)]) -> (p: Self)
        ensures
            p@ == entries_text(entries@),
    {
        Params(entries)
    }

    /// The number of entries.
    pub fn len(&self) -> (n: usize)
        ensures
            n == self@.len(),
    {
        self.0.len()
    }

    /// The value of the entry at `index`.
    pub fn value_at(&self, index: usize) -> (value: &'de str)
        requires
            index < self@.len(),
        ensures
            value@ == self@[index as int].1,
    {
        let entry = self.0[index];
        entry.1
    }

    /// The value of every entry, in list order, with the keys dropped.
    pub fn values(&self) -> (out: Vec<&'de str>)
        ensures
            out@.len() == self@.len(),
            strs_text(out@) == values_of(self@),
    {
        let mut out: Vec<&'de str> = Vec::new();
        let mut i: usize = 0;
        while i < self.0.len()
            invariant
                i <= self.0@.len(),
                out@.len() == i,
                forall|j: int| 0 <= j < i ==> #[trigger] out@[j]@ == self@[j].1,
            decreases self.0@.len() - i,
        {
            let entry = self.0[i];
            out.push(entry.1);
            i += 1;
        }
        assert(strs_text(out@) =~= values_of(self@));
        out
    }

    /// Every entry, key and value, in list order.
    pub fn iter_entries(&self) -> (out: Vec<(&'de str, &'de str)>)
        ensures
            out@.len() == self@.len(),
            entries_text(out@) == self@,
    {
        let mut out: Vec<(&'de str, &'de str)> = Vec::new();
        let mut i: usize = 0;
        while i < self.0.len()
            invariant
                i <= self.0@.len(),
                out@.len() == i,
                forall|j: int| 0 <= j < i ==> #[trigger] out@[j] == self.0@[j],
            decreases self.0@.len() - i,
        {
            let entry = self.0[i];
            out.push(entry);
            i += 1;
        }
        assert(entries_text(out@) =~= self@);
        out
    }
}

} // verus!
