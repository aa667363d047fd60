//! An ordered association of string keys with string values.
//!
//! Input rows and the field mapping are both finite maps from strings to
//! strings whose iteration order should be deterministic, so they are kept as
//! a vector of pairs with pairwise-distinct keys.

use vstd::prelude::*;
use crate::text::str_eq;

verus! {

/// First value associated with `k` in `m`, searching from index `i`.
pub open spec fn find_from(m: Seq<(Seq<char>, Seq<char>)>, k: Seq<char>, i: int) -> Option<
    Seq<char>,
>
    decreases m.len() - i,
{
    if i < 0 || i >= m.len() {
        None
    } else if m[i].0 == k {
        Some(m[i].1)
    } else {
        find_from(m, k, i + 1)
    }
}

/// First value associated with `k` in `m`, if any.
pub open spec fn spec_find(m: Seq<(Seq<char>, Seq<char>)>, k: Seq<char>) -> Option<Seq<char>> {
    find_from(m, k, 0)
}

/// The association extended with `(k, v)` only when `k` is absent.
pub open spec fn with_default(
    m: Seq<(Seq<char>, Seq<char>)>,
    k: Seq<char>,
    v: Seq<char>,
) -> Seq<(Seq<char>, Seq<char>)> {
    if spec_find(m, k) is Some {
        m
    } else {
        m.push((k, v))
    }
}

/// A `None` search result means no entry carries the key at all.
pub proof fn lemma_find_from_none(m: Seq<(Seq<char>, Seq<char>)>, k: Seq<char>, i: int)
    requires
        0 <= i,
        find_from(m, k, i) is None,
    ensures
        forall|j: int| i <= j < m.len() ==> m[j].0 != k,
    decreases m.len() - i,
{
    if 0 <= i && i < m.len() {
        lemma_find_from_none(m, k, i + 1);
    }
}

proof fn lemma_find_from_push(
    m: Seq<(Seq<char>, Seq<char>)>,
    k: Seq<char>,
    v: Seq<char>,
    k2: Seq<char>,
    i: int,
)
    requires
        0 <= i <= m.len(),
    ensures
        find_from(m.push((k, v)), k2, i) == (match find_from(m, k2, i) {
            Some(x) => Some(x),
            None => if k2 == k {
                Some(v)
            } else {
                None
            },
        }),
    decreases m.len() - i,
{
    let mp = m.push((k, v));
    if i == m.len() {
        assert(mp[i] == (k, v));
        if k2 != k {
            assert(find_from(mp, k2, i) == find_from(mp, k2, i + 1));
        }
    } else {
        assert(mp[i] == m[i]);
        if m[i].0 != k2 {
            lemma_find_from_push(m, k, v, k2, i + 1);
        }
    }
}

/// Searching a widened association: a present key keeps its value, the new
/// key answers with `v`, every other key stays absent.
pub proof fn lemma_find_push(
    m: Seq<(Seq<char>, Seq<char>)>,
    k: Seq<char>,
    v: Seq<char>,
    k2: Seq<char>,
)
    ensures
        spec_find(m.push((k, v)), k2) == (match spec_find(m, k2) {
            Some(x) => Some(x),
            None => if k2 == k {
                Some(v)
            } else {
                None
            },
        }),
{
    lemma_find_from_push(m, k, v, k2, 0);
}

/// Searching after one default was merged: a present key keeps its value,
/// the default key answers with the default, every other key stays absent.
pub proof fn lemma_with_default_find(
    m: Seq<(Seq<char>, Seq<char>)>,
    k: Seq<char>,
    v: Seq<char>,
    k2: Seq<char>,
)
    ensures
        spec_find(with_default(m, k, v), k2) == (if spec_find(m, k2) is Some {
            spec_find(m, k2)
        } else if k2 == k {
            Some(v)
        } else {
            None
        }),
{
    if spec_find(m, k) is None {
        lemma_find_push(m, k, v, k2);
    }
}

/// Ordered map from string keys to string values.
#[derive(Debug, Clone)]
pub struct StringMap {
    pub entries: Vec<(String, String)>,
}

impl View for StringMap {
    type V = Seq<(Seq<char>, Seq<char>)>;

    open spec fn view(&self) -> Seq<(Seq<char>, Seq<char>)> {
        Seq::new(self.entries@.len(), |i: int| (self.entries@[i].0@, self.entries@[i].1@))
    }
}

impl StringMap {
    /// Keys are pairwise distinct.
    pub open spec fn wf(&self) -> bool {
        forall|i: int, j: int| 0 <= i < j < self@.len() ==> self@[i].0 != self@[j].0
    }

    /// An empty map.
    pub fn new() -> (m: StringMap)
        ensures
            m@ =~= Seq::<(Seq<char>, Seq<char>)>::empty(),
            m.wf(),
    {
        StringMap { entries: Vec::new() }
    }

    /// Number of entries.
    pub fn len(&self) -> (n: usize)
        ensures
            n == self@.len(),
    {
        self.entries.len()
    }

    /// Key of the entry at position `i`.
    pub fn key_at(&self, i: usize) -> (k: &String)
        requires
            i < self@.len(),
        ensures
            k@ == self@[i as int].0,
    {
        &self.entries[i].0
    }

    /// Value of the entry at position `i`.
    pub fn value_at(&self, i: usize) -> (v: &String)
        requires
            i < self@.len(),
        ensures
            v@ == self@[i as int].1,
    {
        &self.entries[i].1
    }

    /// Value associated with `key`, if any.
    pub fn get(&self, key: &str) -> (r: Option<&String>)
        ensures
            match r {
                Some(v) => spec_find(self@, key@) == Some(v@),
                None => spec_find(self@, key@) is None,
            },
    {
        let n = self.entries.len();
        let mut i: usize = 0;
        while i < n
            invariant
                n == self@.len(),
                i <= n,
                find_from(self@, key@, 0) == find_from(self@, key@, i as int),
            decreases n - i,
        {
            if str_eq(self.entries[i].0.as_str(), key) {
                return Some(&self.entries[i].1);
            }
            i += 1;
        }
        None
    }

    /// Whether `key` is present.
    pub fn contains_key(&self, key: &str) -> (r: bool)
        ensures
            r == (spec_find(self@, key@) is Some),
    {
        self.get(key).is_some()
    }

    /// Associates `key` with `value`, replacing an earlier value for the same
    /// key in place and appending otherwise.
    #[verifier::loop_isolation(false)]
    pub fn insert(&mut self, key: &str, value: &str)
        ensures
            match spec_find(old(self)@, key@) {
                None => final (self)@ =~= old(self)@.push((key@, value@)),
                Some(_) => exists|i: int|
                    0 <= i < old(self)@.len() && old(self)@[i].0 == key@ && final (self)@
                        =~= old(self)@.update(i, (key@, value@)),
            },
            old(self).wf() ==> final (self).wf(),
    {
        let ghost pre = self@;
        let n = self.entries.len();
        let mut i: usize = 0;
        while i < n
            invariant
                self@ == pre,
                n == pre.len(),
                i <= n,
                find_from(pre, key@, 0) == find_from(pre, key@, i as int),
            decreases n - i,
        {
            let e = &self.entries[i];
            let hit = str_eq(e.0.as_str(), key);
            proof {
                assert(self@[i as int] == (self.entries@[i as int].0@, self.entries@[i as int].1@));
            }
            if hit {
                let ghost ki: int = i as int;
                proof {
                    assert(pre[ki].0 == key@);
                }
                self.entries.set(i, (key.to_owned(), value.to_owned()));
                proof {
                    assert(self@ =~= pre.update(ki, (key@, value@)));
                    assert(find_from(pre, key@, ki) == Some(pre[ki].1));
                    assert(0 <= ki < pre.len() && pre[ki].0 == key@ && self@ =~= pre.update(
                        ki,
                        (key@, value@),
                    ));
                    if old(self).wf() {
                        assert forall|a: int, b: int| 0 <= a < b < self@.len() implies self@[a].0
                            != self@[b].0 by {
                            if a == ki {
                                assert(self@[a].0 == key@ && pre[a].0 == key@);
                            } else {
                                assert(self@[a].0 == pre[a].0);
                            }
                            if b == ki {
                                assert(self@[b].0 == key@ && pre[b].0 == key@);
                            } else {
                                assert(self@[b].0 == pre[b].0);
                            }
                            assert(pre[a].0 != pre[b].0);
                        }
                    }
                }
                return ;
            }
            i += 1;
        }
        self.entries.push((key.to_owned(), value.to_owned()));
        proof {
            assert(self@ =~= pre.push((key@, value@)));
            lemma_find_from_none(pre, key@, 0);
            if old(self).wf() {
                assert forall|a: int, b: int| 0 <= a < b < self@.len() implies self@[a].0
                    != self@[b].0 by {
                    if b < pre.len() {
                        assert(pre[a].0 == self@[a].0);
                        assert(pre[b].0 == self@[b].0);
                    } else {
                        assert(pre[a].0 == self@[a].0);
                    }
                }
            }
        }
    }

    /// Associates `key` with `value` only when `key` is absent.
    pub fn insert_if_absent(&mut self, key: &str, value: &str)
        ensures
            final (self)@ =~= with_default(old(self)@, key@, value@),
            old(self).wf() ==> final (self).wf(),
    {
        let ghost pre = self@;
        if !self.contains_key(key) {
            self.entries.push((key.to_owned(), value.to_owned()));
            proof {
                assert(self@ =~= pre.push((key@, value@)));
                lemma_find_from_none(pre, key@, 0);
                if old(self).wf() {
                    assert forall|a: int, b: int| 0 <= a < b < self@.len() implies self@[a].0
                        != self@[b].0 by {
                        if b < pre.len() {
                            assert(pre[a].0 == self@[a].0);
                            assert(pre[b].0 == self@[b].0);
                        } else {
                            assert(pre[a].0 == self@[a].0);
                        }
                    }
                }
            }
        }
    }
}

} // verus!
