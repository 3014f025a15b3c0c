//! Configuration values, viewed as a map from key to value text. Loading
//! the `key=value` file is an external collaborator; the core only holds
//! and reads the values.

use crate::strutil::{is_i32_string, parse_i32, spec_i32_value};
use vstd::prelude::*;

verus! {

/// The map a key/value entry list denotes; later entries win.
pub open spec fn cfg_map(s: Seq<(String, String)>) -> Map<Seq<char>, Seq<char>>
    decreases s.len(),
{
    if s.len() == 0 {
        Map::empty()
    } else {
        cfg_map(s.drop_last()).insert(s.last().0@, s.last().1@)
    }
}

/// Pairwise-distinct keys, by text.
pub open spec fn cfg_unique(s: Seq<(String, String)>) -> bool {
    forall|i: int, j: int| 0 <= i < j < s.len() ==> (#[trigger] s[i]).0@ != (#[trigger] s[j]).0@
}

/// A key is in the map exactly when some entry carries it.
proof fn lemma_cfg_dom(s: Seq<(String, String)>, k: Seq<char>)
    ensures
        cfg_map(s).dom().contains(k) <==> exists|i: int| 0 <= i < s.len() && (#[trigger] s[i]).0@
            == k,
    decreases s.len(),
{
    if s.len() > 0 {
        lemma_cfg_dom(s.drop_last(), k);
        if s.last().0@ == k {
            assert(s[s.len() - 1].0@ == k);
        } else if exists|i: int| 0 <= i < s.len() && (#[trigger] s[i]).0@ == k {
            let i = choose|i: int| 0 <= i < s.len() && (#[trigger] s[i]).0@ == k;
            assert(s.drop_last()[i].0@ == k);
        }
    }
}

/// With unique keys, the map sends each entry's key to its value.
proof fn lemma_cfg_index(s: Seq<(String, String)>, i: int)
    requires
        cfg_unique(s),
        0 <= i < s.len(),
    ensures
        cfg_map(s).dom().contains(s[i].0@),
        cfg_map(s)[s[i].0@] == s[i].1@,
    decreases s.len(),
{
    assert(forall|x: int| 0 <= x < s.drop_last().len() ==> #[trigger] s.drop_last()[x] == s[x]);
    if i == s.len() - 1 {
    } else {
        assert(cfg_unique(s.drop_last()));
        lemma_cfg_index(s.drop_last(), i);
        assert(s[i].0@ != s.last().0@);
    }
}

/// With unique keys, removing an entry removes exactly its key.
proof fn lemma_cfg_remove(s: Seq<(String, String)>, i: int)
    requires
        cfg_unique(s),
        0 <= i < s.len(),
    ensures
        cfg_map(s.remove(i)) =~= cfg_map(s).remove(s[i].0@),
    decreases s.len(),
{
    assert(forall|x: int| 0 <= x < s.drop_last().len() ==> #[trigger] s.drop_last()[x] == s[x]);
    assert(cfg_unique(s.drop_last()));
    if i == s.len() - 1 {
        assert(s.remove(i) =~= s.drop_last());
        lemma_cfg_dom(s.drop_last(), s[i].0@);
        assert(!cfg_map(s.drop_last()).dom().contains(s[i].0@));
    } else {
        let t = s.remove(i);
        assert(t.last() == s.last());
        assert(t.drop_last() =~= s.drop_last().remove(i));
        lemma_cfg_remove(s.drop_last(), i);
        assert(s[i].0@ != s.last().0@);
    }
}

/// The values the process was configured with.
#[derive(Debug)]
pub struct Config {
    pub values: Vec<(String, String)>,
}

impl Clone for Config {
    fn clone(&self) -> (r: Self)
        ensures
            r.values@.len() == self.values@.len(),
            forall|i: int|
                0 <= i < self.values@.len() ==> (#[trigger] r.values@[i]).0@ == self.values@[i].0@
                    && r.values@[i].1@ == self.values@[i].1@,
    {
        let mut values: Vec<(String, String)> = Vec::new();
        let mut i: usize = 0;
        while i < self.values.len()
            invariant
                0 <= i <= self.values@.len(),
                values@.len() == i,
                forall|j: int|
                    0 <= j < i ==> (#[trigger] values@[j]).0@ == self.values@[j].0@
                        && values@[j].1@ == self.values@[j].1@,
            decreases self.values@.len() - i,
        {
            let k = self.values[i].0.clone();
            let v = self.values[i].1.clone();
            values.push((k, v));
            i = i + 1;
        }
        Config { values }
    }
}

impl Config {
    /// The key-to-value mapping.
    pub open spec fn spec_map(&self) -> Map<Seq<char>, Seq<char>> {
        cfg_map(self.values@)
    }

    /// Keys are pairwise distinct.
    pub open spec fn wf(&self) -> bool {
        cfg_unique(self.values@)
    }

    /// A configuration with no values.
    pub fn empty() -> (r: Self)
        ensures
            r.wf(),
            r.spec_map() =~= Map::<Seq<char>, Seq<char>>::empty(),
    {
        Config { values: Vec::new() }
    }

    /// Index of the entry carrying `k`, if any.
    fn find(&self, k: &str) -> (r: Option<usize>)
        ensures
            r matches Some(i) ==> 0 <= i < self.values@.len() && self.values@[i as int].0@ == k@,
            r is None ==> forall|i: int|
                0 <= i < self.values@.len() ==> (#[trigger] self.values@[i]).0@ != k@,
    {
        let key: String = k.to_owned();
        let mut i: usize = 0;
        while i < self.values.len()
            invariant
                0 <= i <= self.values@.len(),
                key@ == k@,
                forall|j: int| 0 <= j < i ==> (#[trigger] self.values@[j]).0@ != k@,
            decreases self.values@.len() - i,
        {
            if self.values[i].0 == key {
                return Some(i);
            }
            i = i + 1;
        }
        None
    }

    /// The configuration with `k` set to `v`; an existing value under the
    /// same key is replaced.
    pub fn with(self, k: &str, v: &str) -> (r: Self)
        requires
            self.wf(),
        ensures
            r.wf(),
            r.spec_map() == self.spec_map().insert(k@, v@),
    {
        let mut c = self;
        match c.find(k) {
            Some(i) => {
                c.values.remove(i);
                proof {
                    lemma_cfg_remove(self.values@, i as int);
                    assert forall|x: int, y: int| 0 <= x < y < c.values@.len() implies (
                    #[trigger] c.values@[x]).0@ != (#[trigger] c.values@[y]).0@ by {
                        let ox: int = if x < i {
                            x
                        } else {
                            x + 1
                        };
                        let oy: int = if y < i {
                            y
                        } else {
                            y + 1
                        };
                        assert(c.values@[x] == self.values@[ox] && c.values@[y]
                            == self.values@[oy]);
                    }
                }
            },
            None => {
                proof {
                    lemma_cfg_dom(c.values@, k@);
                    assert(c.spec_map().remove(k@) =~= c.spec_map());
                }
            },
        }
        let ghost mid = c.values@;
        c.values.push((k.to_owned(), v.to_owned()));
        proof {
            assert(c.values@.drop_last() =~= mid);
            lemma_cfg_dom(mid, k@);
            assert forall|x: int, y: int| 0 <= x < y < c.values@.len() implies (
            #[trigger] c.values@[x]).0@ != (#[trigger] c.values@[y]).0@ by {
                if y == c.values@.len() - 1 {
                    assert(c.values@[x] == mid[x]);
                } else {
                    assert(c.values@[x] == mid[x] && c.values@[y] == mid[y]);
                }
            }
            assert(self.spec_map().remove(k@).insert(k@, v@) =~= self.spec_map().insert(k@, v@));
        }
        c
    }

    /// The raw text under a key.
    pub fn get_string(&self, k: &str) -> (r: Option<&String>)
        requires
            self.wf(),
        ensures
            r matches Some(v) ==> self.spec_map().dom().contains(k@) && v@ == self.spec_map()[k@],
            r is None ==> !self.spec_map().dom().contains(k@),
    {
        proof {
            lemma_cfg_dom(self.values@, k@);
        }
        match self.find(k) {
            Some(i) => {
                proof {
                    lemma_cfg_index(self.values@, i as int);
                }
                Some(&self.values[i].1)
            },
            None => None,
        }
    }

    /// The integer under a key; the stored text must parse when present.
    pub fn get_int(&self, k: &str) -> (r: Option<i32>)
        requires
            self.wf(),
            self.spec_map().dom().contains(k@) ==> is_i32_string(self.spec_map()[k@]),
        ensures
            r matches Some(v) ==> self.spec_map().dom().contains(k@) && v as int == spec_i32_value(
                self.spec_map()[k@],
            ),
            r is None <==> !self.spec_map().dom().contains(k@),
    {
        match self.get_string(k) {
            Some(v) => {
                let res = parse_i32(v.as_str());
                Some(res.unwrap())
            },
            None => None,
        }
    }

    /// Whether a key is set to exactly `true`.
    pub fn get_bool(&self, k: &str) -> (r: bool)
        requires
            self.wf(),
        ensures
            r == (self.spec_map().dom().contains(k@) && self.spec_map()[k@] == "true"@),
    {
        match self.get_string(k) {
            Some(v) => {
                let t: String = "true".to_owned();
                *v == t
            },
            None => false,
        }
    }
}

} // verus!
