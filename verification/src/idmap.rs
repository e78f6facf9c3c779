//! An id-indexed table with by-key lookup.
//!
//! Producer-assigned ids are sparse 32-bit integers, so the table is keyed
//! rather than densely indexed.  The representation is a vector of
//! key/value pairs with pairwise distinct keys; its view is the finite
//! `Map` from ids to the deep views of the stored values.

use vstd::prelude::*;

verus! {

/// True when the keys of the entry sequence are pairwise distinct.
pub open spec fn unique_keys<V>(s: Seq<(u32, V)>) -> bool {
    forall|i: int, j: int|
        0 <= i < j < s.len() ==> (#[trigger] s[i]).0 != (#[trigger] s[j]).0
}

/// The map described by an entry sequence; a later binding for a key
/// supersedes an earlier one.
pub open spec fn assoc_map<V: DeepView>(s: Seq<(u32, V)>) -> Map<u32, V::V>
    decreases s.len(),
{
    if s.len() == 0 {
        Map::empty()
    } else {
        assoc_map(s.drop_last()).insert(s.last().0, s.last().1.deep_view())
    }
}

/// A key is bound in the map exactly when some entry carries it.
pub proof fn lemma_assoc_contains<V: DeepView>(s: Seq<(u32, V)>, k: u32)
    ensures
        assoc_map(s).contains_key(k) <==> exists|i: int| 0 <= i < s.len() && (#[trigger] s[i]).0 == k,
    decreases s.len(),
{
    if s.len() > 0 {
        lemma_assoc_contains(s.drop_last(), k);
        assert(forall|i: int| 0 <= i < s.len() - 1 ==> #[trigger] s.drop_last()[i] == s[i]);
        if s.last().0 == k {
            assert((s[s.len() - 1]).0 == k);
            assert(assoc_map(s).contains_key(k));
        } else if assoc_map(s).contains_key(k) {
            assert(assoc_map(s.drop_last()).contains_key(k));
            let i = choose|i: int| 0 <= i < s.drop_last().len() && (#[trigger] s.drop_last()[i]).0 == k;
            assert((s[i]).0 == k);
        } else {
            assert forall|i: int| 0 <= i < s.len() implies (#[trigger] s[i]).0 != k by {
                if i < s.len() - 1 {
                    assert(s.drop_last()[i] == s[i]);
                }
            }
        }
    }
}

/// With distinct keys, every entry is what the map yields for its key.
pub proof fn lemma_assoc_index<V: DeepView>(s: Seq<(u32, V)>, i: int)
    requires
        unique_keys(s),
        0 <= i < s.len(),
    ensures
        assoc_map(s).contains_key(s[i].0),
        assoc_map(s)[s[i].0] == s[i].1.deep_view(),
    decreases s.len(),
{
    if i == s.len() - 1 {
    } else {
        assert(unique_keys(s.drop_last())) by {
            assert(forall|p: int, q: int|
                0 <= p < q < s.drop_last().len() ==> (#[trigger] s.drop_last()[p]).0 != (
                #[trigger] s.drop_last()[q]).0);
        }
        lemma_assoc_index(s.drop_last(), i);
        assert(s.drop_last()[i] == s[i]);
        assert(s[i].0 != s.last().0);
    }
}

/// With distinct keys, the map has exactly one binding per entry.
pub proof fn lemma_assoc_dom<V: DeepView>(s: Seq<(u32, V)>)
    requires
        unique_keys(s),
    ensures
        assoc_map(s).dom().finite(),
        assoc_map(s).dom().len() == s.len(),
    decreases s.len(),
{
    if s.len() > 0 {
        assert(unique_keys(s.drop_last())) by {
            assert(forall|p: int, q: int|
                0 <= p < q < s.drop_last().len() ==> (#[trigger] s.drop_last()[p]).0 != (
                #[trigger] s.drop_last()[q]).0);
        }
        lemma_assoc_dom(s.drop_last());
        lemma_assoc_contains(s.drop_last(), s.last().0);
        assert(forall|i: int| 0 <= i < s.drop_last().len() ==> s.drop_last()[i] == s[i]);
        assert(!assoc_map(s.drop_last()).contains_key(s.last().0));
    }
}

/// Replacing the value of the entry that carries a key updates the map at
/// that key and nothing else.
pub proof fn lemma_assoc_update<V: DeepView>(s: Seq<(u32, V)>, i: int, v: V)
    requires
        unique_keys(s),
        0 <= i < s.len(),
    ensures
        unique_keys(s.update(i, (s[i].0, v))),
        assoc_map(s.update(i, (s[i].0, v))) == assoc_map(s).insert(s[i].0, v.deep_view()),
    decreases s.len(),
{
    let k = s[i].0;
    let t = s.update(i, (k, v));
    assert(unique_keys(t)) by {
        assert(forall|p: int| 0 <= p < s.len() ==> (#[trigger] t[p]).0 == s[p].0);
    }
    if i == s.len() - 1 {
        assert(t.drop_last() =~= s.drop_last());
        assert(assoc_map(t) =~= assoc_map(s).insert(k, v.deep_view()));
    } else {
        assert(unique_keys(s.drop_last())) by {
            assert(forall|p: int, q: int|
                0 <= p < q < s.drop_last().len() ==> (#[trigger] s.drop_last()[p]).0 != (
                #[trigger] s.drop_last()[q]).0);
        }
        lemma_assoc_update(s.drop_last(), i, v);
        assert(t.drop_last() =~= s.drop_last().update(i, (k, v)));
        assert(t.last() == s.last());
        assert(s[i].0 != s.last().0);
        assert(assoc_map(t) =~= assoc_map(s).insert(k, v.deep_view()));
    }
}

/// Appending an entry with a fresh key inserts a binding for it.
pub proof fn lemma_assoc_push<V: DeepView>(s: Seq<(u32, V)>, k: u32, v: V)
    requires
        unique_keys(s),
        forall|i: int| 0 <= i < s.len() ==> (#[trigger] s[i]).0 != k,
    ensures
        unique_keys(s.push((k, v))),
        assoc_map(s.push((k, v))) == assoc_map(s).insert(k, v.deep_view()),
{
    let t = s.push((k, v));
    assert(forall|p: int| 0 <= p < s.len() ==> t[p] == s[p]);
    assert(t.last() == (k, v));
    assert(t.drop_last() =~= s);
}

/// Removing the entry that carries a key removes exactly that binding.
pub proof fn lemma_assoc_remove<V: DeepView>(s: Seq<(u32, V)>, i: int)
    requires
        unique_keys(s),
        0 <= i < s.len(),
    ensures
        unique_keys(s.remove(i)),
        assoc_map(s.remove(i)) == assoc_map(s).remove(s[i].0),
    decreases s.len(),
{
    let k = s[i].0;
    let t = s.remove(i);
    assert(unique_keys(t)) by {
        assert(forall|p: int|
            0 <= p < t.len() ==> (#[trigger] t[p]) == if p < i {
                s[p]
            } else {
                s[p + 1]
            });
    }
    if i == s.len() - 1 {
        assert(t =~= s.drop_last());
        lemma_assoc_contains(s.drop_last(), k);
        assert(forall|p: int| 0 <= p < s.len() - 1 ==> #[trigger] s.drop_last()[p] == s[p]);
        assert(!assoc_map(s.drop_last()).contains_key(k));
        assert(assoc_map(s.remove(i)) =~= assoc_map(s).remove(k));
    } else {
        assert(unique_keys(s.drop_last())) by {
            assert(forall|p: int, q: int|
                0 <= p < q < s.drop_last().len() ==> (#[trigger] s.drop_last()[p]).0 != (
                #[trigger] s.drop_last()[q]).0);
        }
        lemma_assoc_remove(s.drop_last(), i);
        assert(forall|p: int| 0 <= p < s.len() - 1 ==> #[trigger] s.drop_last()[p] == s[p]);
        assert(t.drop_last() =~= s.drop_last().remove(i));
        assert(t.last() == s.last());
        assert(s[i].0 != s.last().0);
        assert(assoc_map(s.remove(i)) =~= assoc_map(s).remove(k));
    }
}

/// An id-keyed table of values with by-key lookup.
#[derive(Debug)]
pub struct IdMap<V> {
    pub entries: Vec<(u32, V)>,
}

impl<V: DeepView> View for IdMap<V> {
    type V = Map<u32, V::V>;

    open spec fn view(&self) -> Map<u32, V::V> {
        assoc_map(self.entries@)
    }
}

impl<V: DeepView> IdMap<V> {
    /// The representation invariant: no id is bound twice.
    pub open spec fn wf(&self) -> bool {
        unique_keys(self.entries@)
    }

    /// Creates an empty table.
    pub fn new() -> (r: Self)
        ensures
            r.wf(),
            r@ == Map::<u32, V::V>::empty(),
            r.entries@.len() == 0,
    {
        IdMap { entries: Vec::new() }
    }

    /// The number of bindings held.
    pub fn num_entries(&self) -> (r: usize)
        ensures
            r == self.entries@.len(),
            self.wf() ==> r == self@.dom().len(),
    {
        proof {
            if self.wf() {
                lemma_assoc_dom(self.entries@);
            }
        }
        self.entries.len()
    }

    /// Looks up the value bound to `k`, if any.
    pub fn get(&self, k: u32) -> (r: Option<&V>)
        requires
            self.wf(),
        ensures
            match r {
                Some(v) => self@.contains_key(k) && v.deep_view() == self@[k],
                None => !self@.contains_key(k),
            },
    {
        let n: usize = self.entries.len();
        let mut i: usize = 0;
        while i < n
            invariant
                n == self.entries@.len(),
                0 <= i <= n,
                self.wf(),
                forall|j: int| 0 <= j < i ==> (#[trigger] self.entries@[j]).0 != k,
            decreases n - i,
        {
            if self.entries[i].0 == k {
                proof {
                    lemma_assoc_index(self.entries@, i as int);
                }
                return Some(&self.entries[i].1);
            }
            i = i + 1;
        }
        proof {
            lemma_assoc_contains(self.entries@, k);
        }
        None
    }

    /// Binds `k` to `v`, replacing any previous binding.
    pub fn insert(&mut self, k: u32, v: V)
        requires
            old(self).wf(),
        ensures
            final(self).wf(),
            final(self)@ == old(self)@.insert(k, v.deep_view()),
            final(self).entries@.len() <= old(self).entries@.len() + 1,
    {
        let n: usize = self.entries.len();
        let mut i: usize = 0;
        while i < n
            invariant
                *self == *old(self),
                n == self.entries@.len(),
                0 <= i <= n,
                self.wf(),
                forall|j: int| 0 <= j < i ==> (#[trigger] self.entries@[j]).0 != k,
            decreases n - i,
        {
            if self.entries[i].0 == k {
                proof {
                    lemma_assoc_update(self.entries@, i as int, v);
                }
                self.entries[i] = (k, v);
                return;
            }
            i = i + 1;
        }
        proof {
            lemma_assoc_push(self.entries@, k, v);
        }
        self.entries.push((k, v));
    }

    /// Removes and returns the value bound to `k`, if any.
    pub fn take(&mut self, k: u32) -> (r: Option<V>)
        requires
            old(self).wf(),
        ensures
            final(self).wf(),
            match r {
                Some(v) => {
                    &&& old(self)@.contains_key(k)
                    &&& v.deep_view() == old(self)@[k]
                    &&& final(self)@ == old(self)@.remove(k)
                },
                None => {
                    &&& !old(self)@.contains_key(k)
                    &&& *final(self) == *old(self)
                },
            },
    {
        let n: usize = self.entries.len();
        let mut i: usize = 0;
        while i < n
            invariant
                *self == *old(self),
                n == self.entries@.len(),
                0 <= i <= n,
                self.wf(),
                forall|j: int| 0 <= j < i ==> (#[trigger] self.entries@[j]).0 != k,
            decreases n - i,
        {
            if self.entries[i].0 == k {
                proof {
                    lemma_assoc_index(self.entries@, i as int);
                    lemma_assoc_remove(self.entries@, i as int);
                }
                let pair = self.entries.remove(i);
                return Some(pair.1);
            }
            i = i + 1;
        }
        proof {
            lemma_assoc_contains(self.entries@, k);
        }
        None
    }

    /// The id stored at position `i` of the table.
    pub fn key_at(&self, i: usize) -> (r: u32)
        requires
            i < self.entries@.len(),
        ensures
            r == self.entries@[i as int].0,
    {
        self.entries[i].0
    }

    /// The value stored at position `i` of the table.
    pub fn value_at(&self, i: usize) -> (r: &V)
        requires
            i < self.entries@.len(),
        ensures
            *r == self.entries@[i as int].1,
            self.wf() ==> self@.contains_key(self.entries@[i as int].0) && r.deep_view() == self@[
                self.entries@[i as int].0],
    {
        proof {
            if self.wf() {
                lemma_assoc_index(self.entries@, i as int);
            }
        }
        &self.entries[i].1
    }
}

} // verus!
