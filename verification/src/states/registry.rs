//! The keys-unique `vfd -> value` mapping a hub owns. Entries are kept in a
//! plain vector with pairwise-distinct keys and viewed as a `Map`.

use vstd::prelude::*;

verus! {

/// The map an entry list denotes; later entries win, so pushing is insert.
pub open spec fn assoc_map<T>(s: Seq<(u64, T)>) -> Map<u64, T>
    decreases s.len(),
{
    if s.len() == 0 {
        Map::empty()
    } else {
        assoc_map(s.drop_last()).insert(s.last().0, s.last().1)
    }
}

/// Pairwise-distinct keys.
pub open spec fn unique_keys<T>(s: Seq<(u64, T)>) -> bool {
    forall|i: int, j: int| 0 <= i < j < s.len() ==> (#[trigger] s[i]).0 != (#[trigger] s[j]).0
}

/// A key is in the map exactly when some entry carries it.
proof fn lemma_assoc_dom<T>(s: Seq<(u64, T)>, k: u64)
    ensures
        assoc_map(s).dom().contains(k) <==> exists|i: int| 0 <= i < s.len() && (#[trigger] s[i]).0
            == k,
    decreases s.len(),
{
    if s.len() > 0 {
        lemma_assoc_dom(s.drop_last(), k);
        if s.last().0 == k {
            assert(s[s.len() - 1].0 == k);
        } else if exists|i: int| 0 <= i < s.len() && (#[trigger] s[i]).0 == k {
            let i = choose|i: int| 0 <= i < s.len() && (#[trigger] s[i]).0 == k;
            assert(s.drop_last()[i].0 == k);
        }
    }
}

/// With unique keys, the map sends each entry's key to its value.
proof fn lemma_assoc_index<T>(s: Seq<(u64, T)>, i: int)
    requires
        unique_keys(s),
        0 <= i < s.len(),
    ensures
        assoc_map(s).dom().contains(s[i].0),
        assoc_map(s)[s[i].0] == s[i].1,
    decreases s.len(),
{
    if i == s.len() - 1 {
    } else {
        assert(unique_keys(s.drop_last())) by {
            assert(forall|x: int, y: int|
                0 <= x < y < s.drop_last().len() ==> (#[trigger] s.drop_last()[x]).0
                    != (#[trigger] s.drop_last()[y]).0) by {
                assert(forall|x: int|
                    0 <= x < s.drop_last().len() ==> #[trigger] s.drop_last()[x] == s[x]);
            }
        }
        assert(s.drop_last()[i] == s[i]);
        lemma_assoc_index(s.drop_last(), i);
        assert(s[i].0 != s.last().0);
    }
}

/// With unique keys, removing an entry removes exactly its key.
proof fn lemma_assoc_remove<T>(s: Seq<(u64, T)>, i: int)
    requires
        unique_keys(s),
        0 <= i < s.len(),
    ensures
        assoc_map(s.remove(i)) =~= assoc_map(s).remove(s[i].0),
    decreases s.len(),
{
    assert(forall|x: int| 0 <= x < s.drop_last().len() ==> #[trigger] s.drop_last()[x] == s[x]);
    assert(unique_keys(s.drop_last()));
    if i == s.len() - 1 {
        assert(s.remove(i) =~= s.drop_last());
        lemma_assoc_dom(s.drop_last(), s[i].0);
        assert(!assoc_map(s.drop_last()).dom().contains(s[i].0));
        assert(assoc_map(s.drop_last()).insert(s.last().0, s.last().1).remove(s[i].0)
            =~= assoc_map(s.drop_last()));
    } else {
        let t = s.remove(i);
        assert(t.last() == s.last());
        assert(t.drop_last() =~= s.drop_last().remove(i));
        lemma_assoc_remove(s.drop_last(), i);
        assert(s[i].0 != s.last().0);
        assert(assoc_map(t) =~= assoc_map(s.drop_last()).remove(s[i].0).insert(
            s.last().0,
            s.last().1,
        ));
        assert(assoc_map(s.drop_last()).remove(s[i].0).insert(s.last().0, s.last().1)
            =~= assoc_map(s.drop_last()).insert(s.last().0, s.last().1).remove(s[i].0));
    }
}

/// Removing one entry of a unique-keyed list keeps the keys unique and drops
/// exactly that key from the entries.
proof fn lemma_remove_unique<T>(s: Seq<(u64, T)>, i: int)
    requires
        unique_keys(s),
        0 <= i < s.len(),
    ensures
        unique_keys(s.remove(i)),
        forall|x: int| 0 <= x < s.remove(i).len() ==> (#[trigger] s.remove(i)[x]).0 != s[i].0 || (
        exists|y: int| 0 <= y < s.len() && y != i && (#[trigger] s[y]).0 == s[i].0),
{
    s.remove_ensures(i);
    assert forall|x: int, y: int| 0 <= x < y < s.remove(i).len() implies (#[trigger] s.remove(
        i,
    )[x]).0 != (#[trigger] s.remove(i)[y]).0 by {
        let ox: int = if x < i {
            x
        } else {
            x + 1
        };
        let oy: int = if y < i {
            y
        } else {
            y + 1
        };
        assert(s.remove(i)[x] == s[ox] && s.remove(i)[y] == s[oy]);
    }
    assert forall|x: int| 0 <= x < s.remove(i).len() implies (#[trigger] s.remove(i)[x]).0
        != s[i].0 || (exists|y: int| 0 <= y < s.len() && y != i && (#[trigger] s[y]).0
        == s[i].0) by {
        let ox: int = if x < i {
            x
        } else {
            x + 1
        };
        assert(s.remove(i)[x] == s[ox]);
    }
}

/// A hub-owned registry: a keys-unique mapping from vfd to an outbound
/// value, mutated only from its owning hub's event loop.
pub struct ConnRegistry<T> {
    pub entries: Vec<(u64, T)>,
}

impl<T> ConnRegistry<T> {
    /// The mapping this registry denotes.
    pub open spec fn spec_map(&self) -> Map<u64, T> {
        assoc_map(self.entries@)
    }

    /// Keys are pairwise distinct.
    pub open spec fn wf(&self) -> bool {
        unique_keys(self.entries@)
    }

    /// An empty registry.
    pub fn new() -> (r: Self)
        ensures
            r.wf(),
            r.spec_map() =~= Map::<u64, T>::empty(),
    {
        ConnRegistry { entries: Vec::new() }
    }

    /// Index of the entry carrying `vfd`, if any.
    fn find(&self, vfd: u64) -> (r: Option<usize>)
        ensures
            r matches Some(i) ==> 0 <= i < self.entries@.len() && self.entries@[i as int].0 == vfd,
            r is None ==> forall|i: int|
                0 <= i < self.entries@.len() ==> (#[trigger] self.entries@[i]).0 != vfd,
    {
        let mut i: usize = 0;
        while i < self.entries.len()
            invariant
                0 <= i <= self.entries@.len(),
                forall|j: int| 0 <= j < i ==> (#[trigger] self.entries@[j]).0 != vfd,
            decreases self.entries@.len() - i,
        {
            if self.entries[i].0 == vfd {
                return Some(i);
            }
            i = i + 1;
        }
        None
    }

    /// Whether a connection is registered.
    pub fn contains(&self, vfd: u64) -> (r: bool)
        requires
            self.wf(),
        ensures
            r == self.spec_map().dom().contains(vfd),
    {
        proof {
            lemma_assoc_dom(self.entries@, vfd);
        }
        self.find(vfd).is_some()
    }

    /// Register a connection; an entry already under the same vfd is
    /// replaced.
    pub fn register(&mut self, vfd: u64, value: T)
        requires
            old(self).wf(),
        ensures
            final(self).wf(),
            final(self).spec_map() == old(self).spec_map().insert(vfd, value),
    {
        self.unregister(vfd);
        let ghost mid = self.entries@;
        self.entries.push((vfd, value));
        proof {
            assert(self.entries@.drop_last() =~= mid);
            lemma_assoc_dom(mid, vfd);
            assert forall|x: int, y: int| 0 <= x < y < self.entries@.len() implies (
            #[trigger] self.entries@[x]).0 != (#[trigger] self.entries@[y]).0 by {
                if y == self.entries@.len() - 1 {
                    assert(self.entries@[x] == mid[x]);
                } else {
                    assert(self.entries@[x] == mid[x] && self.entries@[y] == mid[y]);
                }
            }
            assert(old(self).spec_map().remove(vfd).insert(vfd, value) =~= old(
                self,
            ).spec_map().insert(vfd, value));
        }
    }

    /// Evict a connection; an absent vfd is ignored without error.
    pub fn unregister(&mut self, vfd: u64)
        requires
            old(self).wf(),
        ensures
            final(self).wf(),
            final(self).spec_map() == old(self).spec_map().remove(vfd),
    {
        match self.find(vfd) {
            Some(i) => {
                self.entries.remove(i);
                proof {
                    lemma_assoc_remove(old(self).entries@, i as int);
                    lemma_remove_unique(old(self).entries@, i as int);
                }
            },
            None => {
                proof {
                    lemma_assoc_dom(self.entries@, vfd);
                    assert(self.spec_map().remove(vfd) =~= self.spec_map());
                }
            },
        }
    }

    /// Remove and hand back the value under a vfd, if any.
    pub fn take(&mut self, vfd: u64) -> (r: Option<T>)
        requires
            old(self).wf(),
        ensures
            final(self).wf(),
            final(self).spec_map() == old(self).spec_map().remove(vfd),
            r matches Some(t) ==> old(self).spec_map().dom().contains(vfd) && t == old(
                self,
            ).spec_map()[vfd],
            r is None ==> !old(self).spec_map().dom().contains(vfd),
    {
        proof {
            lemma_assoc_dom(self.entries@, vfd);
        }
        match self.find(vfd) {
            Some(i) => {
                proof {
                    lemma_assoc_index(self.entries@, i as int);
                    lemma_assoc_remove(self.entries@, i as int);
                    lemma_remove_unique(self.entries@, i as int);
                }
                let (_, v) = self.entries.remove(i);
                Some(v)
            },
            None => {
                proof {
                    assert(self.spec_map().remove(vfd) =~= self.spec_map());
                }
                None
            },
        }
    }

    /// The registered value for a vfd.
    pub fn get(&self, vfd: u64) -> (r: Option<&T>)
        requires
            self.wf(),
        ensures
            r matches Some(t) ==> self.spec_map().dom().contains(vfd) && *t
                == self.spec_map()[vfd],
            r is None ==> !self.spec_map().dom().contains(vfd),
    {
        proof {
            lemma_assoc_dom(self.entries@, vfd);
        }
        match self.find(vfd) {
            Some(i) => {
                proof {
                    lemma_assoc_index(self.entries@, i as int);
                }
                Some(&self.entries[i].1)
            },
            None => None,
        }
    }
}

} // verus!
