//! The symbol table: every label defined by the program, with the
//! address assigned to it.
//!
//! The table is populated once, during the first pass over the source;
//! a label is inserted exactly where it is defined, is never changed
//! afterwards, and lives for the remainder of the assembly run.  Its
//! mathematical content is a finite map from label to address.

use vstd::prelude::*;

use crate::text::str_eq;

verus! {

/// The map written by a sequence of label/address pairs.
spec fn entries_map(s: Seq<(String, u32)>) -> Map<Seq<char>, int>
    decreases s.len(),
{
    if s.len() == 0 {
        Map::empty()
    } else {
        entries_map(s.drop_last()).insert(s.last().0@, s.last().1 as int)
    }
}

/// A key is in the map exactly when some entry carries it.
proof fn lemma_entries_map_contains(s: Seq<(String, u32)>, k: Seq<char>)
    ensures
        entries_map(s).contains_key(k) <==> exists|i: int| 0 <= i < s.len() && s[i].0@ == k,
    decreases s.len(),
{
    if s.len() > 0 {
        let sub = s.drop_last();
        lemma_entries_map_contains(sub, k);
        if s.last().0@ == k {
            assert(s[s.len() - 1].0@ == k);
        } else {
            if entries_map(s).contains_key(k) {
                let i = choose|i: int| 0 <= i < sub.len() && sub[i].0@ == k;
                assert(s[i].0@ == k);
            }
            if exists|i: int| 0 <= i < s.len() && s[i].0@ == k {
                let i = choose|i: int| 0 <= i < s.len() && s[i].0@ == k;
                assert(sub[i].0@ == k);
            }
        }
    }
}

/// With no key twice, the entry that carries a key decides its value.
proof fn lemma_entries_map_value(s: Seq<(String, u32)>, i: int)
    requires
        forall|p: int, q: int|
            0 <= p < q < s.len() ==> s[p].0@ != s[q].0@,
        0 <= i < s.len(),
    ensures
        entries_map(s).contains_key(s[i].0@),
        entries_map(s)[s[i].0@] == s[i].1 as int,
    decreases s.len(),
{
    lemma_entries_map_contains(s, s[i].0@);
    if i < s.len() - 1 {
        let sub = s.drop_last();
        assert(s.last().0@ != s[i].0@);
        lemma_entries_map_value(sub, i);
    }
}

/// A mapping from label name to assigned address, built during the
/// first pass and read during the second.
pub struct SymbolTable {
    entries: Vec<(String, u32)>,
}

impl View for SymbolTable {
    type V = Map<Seq<char>, int>;

    closed spec fn view(&self) -> Map<Seq<char>, int> {
        entries_map(self.entries@)
    }
}

impl SymbolTable {
    /// No label stands in the table twice.
    pub closed spec fn wf(&self) -> bool {
        forall|p: int, q: int|
            0 <= p < q < self.entries@.len() ==> self.entries@[p].0@ != self.entries@[q].0@
    }

    /// An empty table.
    pub fn new() -> (t: SymbolTable)
        ensures
            t@ == Map::<Seq<char>, int>::empty(),
            t.wf(),
    {
        SymbolTable { entries: Vec::new() }
    }

    /// The address assigned to `name`, if `name` is defined.
    pub fn lookup(&self, name: &str) -> (r: Option<u32>)
        requires
            self.wf(),
        ensures
            (match r {
                Some(a) => self@.contains_key(name@) && self@[name@] == a as int,
                None => !self@.contains_key(name@),
            }),
    {
        let n = self.entries.len();
        let mut i: usize = 0;
        while i < n
            invariant
                self.wf(),
                n == self.entries@.len(),
                i <= n,
                forall|j: int| 0 <= j < i ==> self.entries@[j].0@ != name@,
            decreases n - i,
        {
            if str_eq(self.entries[i].0.as_str(), name) {
                proof {
                    lemma_entries_map_value(self.entries@, i as int);
                }
                return Some(self.entries[i].1);
            }
            i = i + 1;
        }
        proof {
            lemma_entries_map_contains(self.entries@, name@);
        }
        None
    }

    /// Defines `name` at `address`.  The caller has already ruled out a
    /// duplicate definition.
    pub fn insert(&mut self, name: String, address: u32)
        requires
            old(self).wf(),
            !old(self)@.contains_key(name@),
        ensures
            final(self).wf(),
            final(self)@ == old(self)@.insert(name@, address as int),
    {
        proof {
            lemma_entries_map_contains(self.entries@, name@);
        }
        let ghost before = self.entries@;
        self.entries.push((name, address));
        proof {
            assert(self.entries@.drop_last() =~= before);
            assert forall|p: int, q: int|
                0 <= p < q < self.entries@.len() implies self.entries@[p].0@
                != self.entries@[q].0@ by {
                if q < self.entries@.len() - 1 {
                    assert(before[p].0@ != before[q].0@);
                }
            }
        }
    }
}

} // verus!
