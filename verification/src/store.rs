//! A store of generic items under human-friendly string names.
//!
//! The store behaves as a map from names to items: adding under an
//! existing name replaces the item, retrieving clones it, removing
//! hands it back. It is kept as an association list with unique
//! keys, viewed in contracts as a mathematical map from the name's
//! characters to the item.

use vstd::prelude::*;

verus! {

/// A way to store and access generic items via human-friendly
/// names.
#[derive(Clone, Debug)]
pub struct Store<T: Clone> {
    items: Vec<(String, T)>,
}

/// Whether an association list's keys are pairwise distinct.
pub open spec fn keys_unique<T>(s: Seq<(String, T)>) -> bool {
    forall|i: int, j: int|
        0 <= i < j < s.len() ==> (#[trigger] s[i]).0@ != (#[trigger] s[j]).0@
}

/// The map an association list stands for, later pairs overriding
/// earlier ones.
pub open spec fn as_map<T>(s: Seq<(String, T)>) -> Map<Seq<char>, T>
    decreases s.len(),
{
    if s.len() == 0 {
        Map::empty()
    } else {
        as_map(s.drop_last()).insert(s.last().0@, s.last().1)
    }
}

/// A key is in the map exactly when some pair holds it.
proof fn lemma_as_map_contains<T>(s: Seq<(String, T)>, k: Seq<char>)
    ensures
        as_map(s).contains_key(k) <==> exists|i: int| 0 <= i < s.len() && (#[trigger] s[i]).0@ == k,
    decreases s.len(),
{
    if s.len() > 0 {
        lemma_as_map_contains(s.drop_last(), k);
        if s.last().0@ == k {
            assert(s[s.len() - 1].0@ == k);
        } else if as_map(s).contains_key(k) {
            let i = choose|i: int| 0 <= i < s.drop_last().len() && (#[trigger] s.drop_last()[i]).0@
                == k;
            assert(s[i].0@ == k);
        } else {
            assert forall|i: int| 0 <= i < s.len() implies (#[trigger] s[i]).0@ != k by {
                if i < s.len() - 1 {
                    assert(s.drop_last()[i] == s[i]);
                }
            }
        }
    }
}

/// With unique keys, the map's value at a pair's key is that pair's
/// item.
proof fn lemma_as_map_value<T>(s: Seq<(String, T)>, i: int)
    requires
        keys_unique(s),
        0 <= i < s.len(),
    ensures
        as_map(s).contains_key(s[i].0@),
        as_map(s)[s[i].0@] == s[i].1,
    decreases s.len(),
{
    lemma_as_map_contains(s, s[i].0@);
    if i == s.len() - 1 {
    } else {
        assert(s.drop_last()[i] == s[i]);
        assert(keys_unique(s.drop_last())) by {
            assert forall|a: int, b: int|
                0 <= a < b < s.drop_last().len() implies (#[trigger] s.drop_last()[a]).0@ != (
            #[trigger] s.drop_last()[b]).0@ by {
                assert(s.drop_last()[a] == s[a]);
                assert(s.drop_last()[b] == s[b]);
            }
        }
        lemma_as_map_value(s.drop_last(), i);
        assert(s[i].0@ != s.last().0@);
    }
}

/// Replacing the pair at `i` by one with the same key updates the
/// map at that key.
proof fn lemma_as_map_update<T>(s: Seq<(String, T)>, i: int, p: (String, T))
    requires
        keys_unique(s),
        0 <= i < s.len(),
        p.0@ == s[i].0@,
    ensures
        as_map(s.update(i, p)) =~= as_map(s).insert(p.0@, p.1),
        keys_unique(s.update(i, p)),
    decreases s.len(),
{
    let s2 = s.update(i, p);
    assert forall|a: int, b: int| 0 <= a < b < s2.len() implies (#[trigger] s2[a]).0@ != (
    #[trigger] s2[b]).0@ by {
        assert(s2[a].0@ == s[a].0@);
        assert(s2[b].0@ == s[b].0@);
    }
    if i == s.len() - 1 {
        assert(s2.drop_last() =~= s.drop_last());
        assert(as_map(s2) =~= as_map(s).insert(p.0@, p.1));
    } else {
        assert(keys_unique(s.drop_last())) by {
            assert forall|a: int, b: int|
                0 <= a < b < s.drop_last().len() implies (#[trigger] s.drop_last()[a]).0@ != (
            #[trigger] s.drop_last()[b]).0@ by {
                assert(s.drop_last()[a] == s[a]);
                assert(s.drop_last()[b] == s[b]);
            }
        }
        assert(s.drop_last()[i] == s[i]);
        lemma_as_map_update(s.drop_last(), i, p);
        assert(s2.drop_last() =~= s.drop_last().update(i, p));
        assert(s2.last() == s.last());
        assert(s[i].0@ != s.last().0@);
        assert(as_map(s2) =~= as_map(s).insert(p.0@, p.1));
    }
}

/// Removing the pair at `i` removes its key from the map, keys
/// staying unique.
proof fn lemma_as_map_remove<T>(s: Seq<(String, T)>, i: int)
    requires
        keys_unique(s),
        0 <= i < s.len(),
    ensures
        as_map(s.remove(i)) =~= as_map(s).remove(s[i].0@),
        keys_unique(s.remove(i)),
    decreases s.len(),
{
    let s2 = s.remove(i);
    assert forall|a: int, b: int| 0 <= a < b < s2.len() implies (#[trigger] s2[a]).0@ != (
    #[trigger] s2[b]).0@ by {
        let a0 = if a < i {
            a
        } else {
            a + 1
        };
        let b0 = if b < i {
            b
        } else {
            b + 1
        };
        assert(s2[a] == s[a0]);
        assert(s2[b] == s[b0]);
    }
    assert(keys_unique(s.drop_last())) by {
        assert forall|a: int, b: int|
            0 <= a < b < s.drop_last().len() implies (#[trigger] s.drop_last()[a]).0@ != (
        #[trigger] s.drop_last()[b]).0@ by {
            assert(s.drop_last()[a] == s[a]);
            assert(s.drop_last()[b] == s[b]);
        }
    }
    if i == s.len() - 1 {
        assert(s2 =~= s.drop_last());
        lemma_as_map_contains(s.drop_last(), s[i].0@);
        assert forall|j: int| 0 <= j < s.drop_last().len() implies (#[trigger] s.drop_last()[j]).0@
            != s[i].0@ by {
            assert(s.drop_last()[j] == s[j]);
        }
        assert(as_map(s2) =~= as_map(s).remove(s[i].0@));
    } else {
        assert(s.drop_last()[i] == s[i]);
        lemma_as_map_remove(s.drop_last(), i);
        assert(s2.drop_last() =~= s.drop_last().remove(i));
        assert(s2.last() == s.last());
        assert(s[i].0@ != s.last().0@);
        assert(as_map(s2) =~= as_map(s).remove(s[i].0@));
    }
}

impl<T: Clone> Store<T> {
    /// The store's association list has pairwise distinct keys.
    pub closed spec fn wf(&self) -> bool {
        keys_unique(self.items@)
    }

    /// The map the store stands for.
    pub closed spec fn view_spec(&self) -> Map<Seq<char>, T> {
        as_map(self.items@)
    }

    /// Creates an empty store.
    pub fn new() -> (r: Self)
        ensures
            r.wf(),
            r.view_spec() == Map::<Seq<char>, T>::empty(),
    {
        Store { items: Vec::new() }
    }

    /// The index of the pair holding the given name, if any.
    fn position(&self, id: &String) -> (r: Option<usize>)
        ensures
            r matches Some(i) ==> i < self.items@.len() && self.items@[i as int].0@ == id@,
            r is None ==> forall|j: int|
                0 <= j < self.items@.len() ==> (#[trigger] self.items@[j]).0@ != id@,
    {
        let mut j: usize = 0;
        while j < self.items.len()
            invariant
                j <= self.items@.len(),
                forall|k: int| 0 <= k < j ==> (#[trigger] self.items@[k]).0@ != id@,
            decreases self.items@.len() - j,
        {
            if self.items[j].0 == *id {
                return Some(j);
            }
            j += 1;
        }
        None
    }

    /// Stores an item in a builder pattern, replacing any item
    /// already under the name.
    pub fn with(self, id: String, item: T) -> (r: Self)
        requires
            self.wf(),
        ensures
            r.wf(),
            r.view_spec() == self.view_spec().insert(id@, item),
    {
        let mut s = self;
        s.add(id, item);
        s
    }

    /// Stores an item, replacing any item already under the name.
    pub fn add(&mut self, id: String, item: T)
        requires
            old(self).wf(),
        ensures
            final(self).wf(),
            final(self).view_spec() == old(self).view_spec().insert(id@, item),
    {
        let ghost s = self.items@;
        match self.position(&id) {
            Some(i) => {
                proof {
                    lemma_as_map_update(s, i as int, (id, item));
                }
                self.items[i] = (id, item);
            },
            None => {
                self.items.push((id, item));
                proof {
                    assert(self.items@.drop_last() =~= s);
                    assert forall|a: int, b: int|
                        0 <= a < b < self.items@.len() implies (#[trigger] self.items@[a]).0@ != (
                    #[trigger] self.items@[b]).0@ by {
                        if b < self.items@.len() - 1 {
                            assert(self.items@[a] == s[a] && self.items@[b] == s[b]);
                        } else {
                            assert(self.items@[a] == s[a]);
                        }
                    }
                }
            },
        }
    }

    /// Returns a clone of the item under the name, if one exists.
    pub fn get(&self, id: &String) -> (r: Option<T>)
        requires
            self.wf(),
        ensures
            r is Some <==> self.view_spec().contains_key(id@),
            r matches Some(v) ==> cloned::<T>(self.view_spec()[id@], v),
    {
        proof {
            lemma_as_map_contains(self.items@, id@);
        }
        match self.position(id) {
            Some(i) => {
                proof {
                    lemma_as_map_value(self.items@, i as int);
                }
                Some(self.items[i].1.clone())
            },
            None => None,
        }
    }

    /// Removes and returns the item under the name, if one exists.
    pub fn remove(&mut self, id: &String) -> (r: Option<T>)
        requires
            old(self).wf(),
        ensures
            final(self).wf(),
            final(self).view_spec() == old(self).view_spec().remove(id@),
            r is Some <==> old(self).view_spec().contains_key(id@),
            r matches Some(v) ==> v == old(self).view_spec()[id@],
    {
        let ghost s = self.items@;
        proof {
            lemma_as_map_contains(s, id@);
        }
        match self.position(id) {
            Some(i) => {
                proof {
                    lemma_as_map_value(s, i as int);
                    lemma_as_map_remove(s, i as int);
                }
                let p = self.items.remove(i);
                Some(p.1)
            },
            None => {
                proof {
                    assert(self.view_spec() =~= self.view_spec().remove(id@));
                }
                None
            },
        }
    }
}

impl<T: Clone> Default for Store<T> {
    /// The default store is empty.
    fn default() -> (r: Self)
        ensures
            r.wf(),
            r.view_spec() == Map::<Seq<char>, T>::empty(),
    {
        Store::new()
    }
}

} // verus!
