//! Small string collections: a set of names and a map from local names to the
//! names they alias.

use vstd::prelude::*;
use crate::text::{owned, str_eq};

verus! {

/// Pushing `x` adds `x` to the set of a sequence's elements.
pub proof fn lemma_push_to_set(s: Seq<Seq<char>>, x: Seq<char>)
    ensures
        s.push(x).to_set() == s.to_set().insert(x),
{
    vstd::seq_lib::seq_to_set_distributes_over_add(s, seq![x]);
    assert(s + seq![x] =~= s.push(x));
    assert(seq![x].to_set() =~= Set::empty().insert(x)) by {
        assert(seq![x][0] == x);
    }
    assert(s.push(x).to_set() =~= s.to_set().insert(x));
}

/// A set of names, kept in insertion order.
#[derive(Debug, Clone)]
pub struct NameSet {
    names: Vec<String>,
}

/// The names as a sequence of character sequences.
pub open spec fn name_list(v: Seq<String>) -> Seq<Seq<char>> {
    v.map_values(|s: String| s@)
}

impl View for NameSet {
    type V = Set<Seq<char>>;

    closed spec fn view(&self) -> Set<Seq<char>> {
        name_list(self.names@).to_set()
    }
}

impl NameSet {
    /// The empty set.
    pub fn new() -> (r: Self)
        ensures
            r@ == Set::<Seq<char>>::empty(),
    {
        let r = NameSet { names: Vec::new() };
        assert(name_list(r.names@) =~= Seq::<Seq<char>>::empty());
        assert(r@ =~= Set::<Seq<char>>::empty());
        r
    }

    /// Adds `name`.
    pub fn insert(&mut self, name: String)
        ensures
            final(self)@ == old(self)@.insert(name@),
    {
        let ghost before = name_list(self.names@);
        self.names.push(name);
        assert(name_list(self.names@) =~= before.push(name@));
        proof { lemma_push_to_set(before, name@); }
        assert(self@ =~= old(self)@.insert(name@));
    }

    /// Whether `name` is in the set.
    pub fn contains(&self, name: &str) -> (r: bool)
        ensures
            r == self@.contains(name@),
    {
        let mut i: usize = 0;
        while i < self.names.len()
            invariant
                i <= self.names.len(),
                forall|k: int| 0 <= k < i ==> name_list(self.names@)[k] != name@,
            decreases self.names.len() - i,
        {
            if str_eq(self.names[i].as_str(), name) {
                assert(name_list(self.names@)[i as int] == name@);
                return true;
            }
            i = i + 1;
        }
        assert(!name_list(self.names@).contains(name@));
        false
    }

    /// Adds every name of `other`.
    pub fn extend(&mut self, other: NameSet)
        ensures
            final(self)@ == old(self)@.union(other@),
    {
        let ghost start = self@;
        let mut i: usize = 0;
        let ghost olist = name_list(other.names@);
        while i < other.names.len()
            invariant
                i <= other.names.len(),
                olist == name_list(other.names@),
                self@ == start.union(olist.take(i as int).to_set()),
            decreases other.names.len() - i,
        {
            let name = owned(other.names[i].as_str());
            let ghost before = self@;
            self.insert(name);
            assert(olist.take(i + 1) =~= olist.take(i as int).push(olist[i as int]));
            proof { lemma_push_to_set(olist.take(i as int), olist[i as int]); }
            assert(self@ =~= start.union(olist.take(i + 1).to_set()));
            i = i + 1;
        }
        assert(olist.take(i as int) =~= olist);
    }
}

/// The last entry for `key` in a list of (local, original) pairs.
pub open spec fn alias_lookup(entries: Seq<(Seq<char>, Seq<char>)>, key: Seq<char>) -> Option<
    Seq<char>,
>
    decreases entries.len(),
{
    if entries.len() == 0 {
        None
    } else if entries.last().0 == key {
        Some(entries.last().1)
    } else {
        alias_lookup(entries.drop_last(), key)
    }
}

/// The views of a list of string pairs.
pub open spec fn pair_list(v: Seq<(String, String)>) -> Seq<(Seq<char>, Seq<char>)> {
    v.map_values(|p: (String, String)| (p.0@, p.1@))
}

/// A map from local names to the imported names they stand for; a later entry
/// for the same local name replaces an earlier one.
#[derive(Debug, Clone)]
pub struct AliasMap {
    entries: Vec<(String, String)>,
}

impl AliasMap {
    /// The entries, oldest first.
    pub closed spec fn entries(&self) -> Seq<(Seq<char>, Seq<char>)> {
        pair_list(self.entries@)
    }

    /// The name that `key` stands for, if it is an alias.
    pub open spec fn spec_get(&self, key: Seq<char>) -> Option<Seq<char>> {
        alias_lookup(self.entries(), key)
    }

    /// The empty map.
    pub fn new() -> (r: Self)
        ensures
            r.entries() == Seq::<(Seq<char>, Seq<char>)>::empty(),
    {
        let r = AliasMap { entries: Vec::new() };
        assert(r.entries() =~= Seq::<(Seq<char>, Seq<char>)>::empty());
        r
    }

    /// Maps `local` to `original`.
    pub fn insert(&mut self, local: String, original: String)
        ensures
            final(self).entries() == old(self).entries().push((local@, original@)),
    {
        self.entries.push((local, original));
        assert(final(self).entries() =~= old(self).entries().push((local@, original@)));
    }

    /// The name that `key` stands for, if it is an alias.
    pub fn get(&self, key: &str) -> (r: Option<&String>)
        ensures
            r matches Some(v) ==> self.spec_get(key@) == Some(v@),
            r is None ==> self.spec_get(key@) is None,
    {
        let mut n: usize = self.entries.len();
        assert(self.entries().take(n as int) =~= self.entries());
        while n > 0
            invariant
                n <= self.entries.len(),
                self.spec_get(key@) == alias_lookup(self.entries().take(n as int), key@),
            decreases n,
        {
            assert(self.entries().take(n as int).drop_last() =~= self.entries().take(n - 1));
            if str_eq(self.entries[n - 1].0.as_str(), key) {
                return Some(&self.entries[n - 1].1);
            }
            n = n - 1;
        }
        None
    }

    /// Adds the entries of `other` after these.
    pub fn extend(&mut self, other: AliasMap)
        ensures
            final(self).entries() == old(self).entries() + other.entries(),
    {
        let mut i: usize = 0;
        while i < other.entries.len()
            invariant
                i <= other.entries.len(),
                self.entries() == old(self).entries() + other.entries().take(i as int),
            decreases other.entries.len() - i,
        {
            let local = owned(other.entries[i].0.as_str());
            let original = owned(other.entries[i].1.as_str());
            self.insert(local, original);
            assert(other.entries().take(i + 1) =~= other.entries().take(i as int).push(
                other.entries()[i as int],
            ));
            i = i + 1;
        }
        assert(other.entries().take(i as int) =~= other.entries());
    }
}

} // verus!
