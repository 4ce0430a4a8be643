//! An in-memory key-value store keyed by byte strings.
//!
//! Entries are appended; a later entry for a key shadows the earlier ones, so
//! an insertion never disturbs what other keys map to.
use vstd::prelude::*;
use crate::bytes::bytes_eq;

verus! {

/// The map that a sequence of entries denotes, later entries winning.
pub open spec fn entries_map<V>(s: Seq<(Vec<u8>, V)>) -> Map<Seq<u8>, V>
    decreases s.len(),
{
    if s.len() == 0 {
        Map::empty()
    } else {
        entries_map(s.drop_last()).insert(s.last().0@, s.last().1)
    }
}

/// Entries past `n` that do not hold `k` leave the value of `k` unchanged.
proof fn lemma_skip_tail<V>(s: Seq<(Vec<u8>, V)>, n: int, k: Seq<u8>)
    requires
        0 <= n <= s.len(),
        forall|j: int| n <= j < s.len() ==> s[j].0@ != k,
    ensures
        entries_map(s).contains_key(k) == entries_map(s.take(n)).contains_key(k),
        entries_map(s).contains_key(k) ==> entries_map(s)[k] == entries_map(s.take(n))[k],
    decreases s.len(),
{
    if s.len() == n {
        assert(s.take(n) =~= s);
    } else {
        lemma_skip_tail(s.drop_last(), n, k);
        assert(s.drop_last().take(n) =~= s.take(n));
    }
}

pub struct ByteMap<V> {
    entries: Vec<(Vec<u8>, V)>,
}

impl<V> View for ByteMap<V> {
    type V = Map<Seq<u8>, V>;

    closed spec fn view(&self) -> Map<Seq<u8>, V> {
        entries_map(self.entries@)
    }
}

impl<V> ByteMap<V> {
    pub fn new() -> (r: Self)
        ensures
            r@ == Map::<Seq<u8>, V>::empty(),
    {
        let r = ByteMap { entries: Vec::new() };
        assert(r@ =~= Map::<Seq<u8>, V>::empty());
        r
    }

    /// Maps `key` to `value`.
    pub fn insert(&mut self, key: Vec<u8>, value: V)
        ensures
            final(self)@ == old(self)@.insert(key@, value),
    {
        self.entries.push((key, value));
        assert(self.entries@.drop_last() =~= old(self).entries@);
    }

    /// The value that `key` maps to.
    pub fn get(&self, key: &[u8]) -> (r: Option<&V>)
        ensures
            match r {
                Some(v) => self@.contains_key(key@) && *v == self@[key@],
                None => !self@.contains_key(key@),
            },
    {
        let mut i: usize = self.entries.len();
        while i > 0
            invariant
                i <= self.entries@.len(),
                forall|j: int| i <= j < self.entries@.len() ==> self.entries@[j].0@ != key@,
            decreases i,
        {
            let e = &self.entries[i - 1];
            if bytes_eq(e.0.as_slice(), key) {
                proof {
                    let s = self.entries@;
                    lemma_skip_tail(s, i as int, key@);
                    assert(s.take(i as int).drop_last() =~= s.take(i - 1));
                }
                return Some(&e.1);
            }
            i = i - 1;
        }
        proof {
            lemma_skip_tail(self.entries@, 0, key@);
            assert(self.entries@.take(0) =~= Seq::<(Vec<u8>, V)>::empty());
        }
        None
    }

    /// Whether `key` has a value.
    pub fn contains_key(&self, key: &[u8]) -> (r: bool)
        ensures
            r == self@.contains_key(key@),
    {
        match self.get(key) {
            Some(_) => true,
            None => false,
        }
    }
}

} // verus!
