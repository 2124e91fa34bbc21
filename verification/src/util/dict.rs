//! Key/value dictionaries, the layer's model of the foreign library's
//! metadata dictionaries.
//!
//! A dictionary is an ordered list of entries with pairwise-distinct
//! keys.  Setting an existing key replaces its value in place; setting
//! a fresh key appends.  [`DictMut`] owns the entries, [`Dictionary`]
//! wraps a [`DictMut`], and [`DictRef`] / [`DictIter`] are borrowed
//! views tied to the owner's lifetime, so no view can outlive the
//! entries it reads.

use vstd::prelude::*;

use crate::error::Error;

verus! {

/// Some entry of `s` has key `k`.
pub open spec fn spec_has(s: Seq<(String, String)>, k: Seq<char>) -> bool {
    exists|j: int| 0 <= j < s.len() && #[trigger] s[j].0@ == k
}

/// The value stored under `k`, if any.
pub open spec fn spec_get(s: Seq<(String, String)>, k: Seq<char>) -> Option<Seq<char>> {
    if spec_has(s, k) {
        Some(s[choose|j: int| 0 <= j < s.len() && #[trigger] s[j].0@ == k].1@)
    } else {
        None
    }
}

/// Keys are pairwise distinct.
pub open spec fn spec_keys_unique(s: Seq<(String, String)>) -> bool {
    forall|i: int, j: int|
        0 <= i < j < s.len() ==> #[trigger] s[i].0@ != #[trigger] s[j].0@
}

/// With unique keys, a matching index determines the lookup result.
proof fn lemma_get_at_index(s: Seq<(String, String)>, k: Seq<char>, j: int)
    requires
        spec_keys_unique(s),
        0 <= j < s.len(),
        s[j].0@ == k,
    ensures
        spec_get(s, k) == Some(s[j].1@),
{
    assert(spec_has(s, k));
    let j2 = choose|j2: int| 0 <= j2 < s.len() && #[trigger] s[j2].0@ == k;
    if j2 != j {
        if j2 < j {
            assert(s[j2].0@ != s[j].0@);
        } else {
            assert(s[j].0@ != s[j2].0@);
        }
    }
}

/// The owned entry list behind a dictionary.
pub struct DictMut {
    entries: Vec<(String, String)>,
}

/// An owned dictionary.
pub struct Dictionary {
    inner: DictMut,
}

/// A borrowed, read-only view of a dictionary's entries.
pub struct DictRef<'a> {
    entries: &'a Vec<(String, String)>,
}

/// A forward-only cursor over a dictionary's entries.  Not restartable;
/// derive a fresh one from the dictionary to iterate again.
pub struct DictIter<'a> {
    entries: &'a Vec<(String, String)>,
    pos: usize,
}

impl View for DictMut {
    type V = Seq<(String, String)>;

    closed spec fn view(&self) -> Seq<(String, String)> {
        self.entries@
    }
}

impl View for Dictionary {
    type V = Seq<(String, String)>;

    closed spec fn view(&self) -> Seq<(String, String)> {
        self.inner@
    }
}

impl<'a> View for DictRef<'a> {
    type V = Seq<(String, String)>;

    closed spec fn view(&self) -> Seq<(String, String)> {
        self.entries@
    }
}

impl DictMut {
    pub open spec fn wf(&self) -> bool {
        spec_keys_unique(self@)
    }

    /// Store `value` under `key`: replace the value in place when the
    /// key exists, append a fresh entry otherwise.  Every other key's
    /// value is untouched.  The model's store never fails.
    pub fn set(&mut self, key: &str, value: &str) -> (r: Result<(), Error>)
        requires
            old(self).wf(),
        ensures
            r is Ok,
            final(self).wf(),
            spec_get(final(self)@, key@) == Some(value@),
            forall|k: Seq<char>|
                k != key@ ==> #[trigger] spec_get(final(self)@, k) == spec_get(old(self)@, k),
            spec_has(old(self)@, key@) ==> final(self)@.len() == old(self)@.len(),
            !spec_has(old(self)@, key@) ==> final(self)@.len() == old(self)@.len() + 1,
            forall|j: int|
                0 <= j < old(self)@.len() ==> #[trigger] final(self)@[j].0@ == old(self)@[j].0@,
    {
        let key_string = key.to_owned();
        let n = self.entries.len();
        let mut i: usize = 0;
        while i < n
            invariant
                old(self).wf(),
                n == self.entries@.len(),
                i <= n,
                self == old(self),
                forall|j: int| 0 <= j < i ==> #[trigger] self.entries@[j].0@ != key@,
                key_string@ == key@,
            decreases n - i,
        {
            if self.entries[i].0 == key_string {
                let kept = self.entries[i].0.clone();
                self.entries.set(i, (kept, value.to_owned()));
                proof {
                    let s0 = old(self)@;
                    let s1 = self@;
                    assert(spec_keys_unique(s0));
                    assert forall|p: int, q: int|
                        0 <= p < q < s1.len() implies #[trigger] s1[p].0@ != #[trigger] s1[q].0@ by {
                        assert(s0[p].0@ != s0[q].0@);
                    }
                    lemma_get_at_index(s1, key@, i as int);
                    assert forall|k: Seq<char>| k != key@
                        implies #[trigger] spec_get(s1, k) == spec_get(s0, k) by {
                        assert forall|j: int| 0 <= j < s1.len()
                            implies (#[trigger] s1[j].0@ == k) == (s0[j].0@ == k) by {}
                        if spec_has(s1, k) {
                            let j = choose|j: int| 0 <= j < s1.len() && #[trigger] s1[j].0@ == k;
                            assert(s0[j].0@ == k);
                            lemma_get_at_index(s0, k, j);
                            lemma_get_at_index(s1, k, j);
                            assert(j != i as int);
                        } else {
                            if spec_has(s0, k) {
                                let j = choose|j: int|
                                    0 <= j < s0.len() && #[trigger] s0[j].0@ == k;
                                assert(s1[j].0@ == k);
                            }
                        }
                    }
                }
                return Ok(());
            }
            i = i + 1;
        }
        self.entries.push((key_string, value.to_owned()));
        proof {
            let s0 = old(self)@;
            let s1 = self@;
            assert(spec_keys_unique(s0));
            assert forall|p: int, q: int|
                0 <= p < q < s1.len() implies #[trigger] s1[p].0@ != #[trigger] s1[q].0@ by {
                if q < s0.len() {
                    assert(s0[p].0@ != s0[q].0@);
                } else {
                    assert(s0[p].0@ != key@);
                }
            }
            lemma_get_at_index(s1, key@, s0.len() as int);
            if spec_has(s0, key@) {
                let j = choose|j: int| 0 <= j < s0.len() && #[trigger] s0[j].0@ == key@;
                assert(false);
            }
            assert forall|k: Seq<char>| k != key@
                implies #[trigger] spec_get(s1, k) == spec_get(s0, k) by {
                if spec_has(s1, k) {
                    let j = choose|j: int| 0 <= j < s1.len() && #[trigger] s1[j].0@ == k;
                    assert(j < s0.len());
                    assert(s0[j].0@ == k);
                    lemma_get_at_index(s0, k, j);
                    lemma_get_at_index(s1, k, j);
                } else {
                    if spec_has(s0, k) {
                        let j = choose|j: int| 0 <= j < s0.len() && #[trigger] s0[j].0@ == k;
                        assert(s1[j].0@ == k);
                    }
                }
            }
        }
        Ok(())
    }

    /// The value stored under `key`, if any.
    pub fn get(&self, key: &str) -> (r: Option<&String>)
        requires
            self.wf(),
        ensures
            match r {
                Some(v) => spec_get(self@, key@) == Some(v@),
                None => spec_get(self@, key@) is None,
            },
    {
        let r = DictRef { entries: &self.entries };
        r.get(key)
    }

    /// A read-only view of the entries.
    pub fn as_ref(&self) -> (r: DictRef<'_>)
        ensures
            r@ == self@,
    {
        DictRef { entries: &self.entries }
    }

    /// A fresh cursor over the entries.
    pub fn iter(&self) -> (it: DictIter<'_>)
        ensures
            it@ == self@,
            it.spec_pos() == 0,
    {
        DictIter { entries: &self.entries, pos: 0 }
    }
}

impl Dictionary {
    pub open spec fn wf(&self) -> bool {
        spec_keys_unique(self@)
    }

    /// An empty dictionary.
    pub fn new() -> (d: Dictionary)
        ensures
            d.wf(),
            d@.len() == 0,
    {
        Dictionary { inner: DictMut { entries: Vec::new() } }
    }

    /// Build a dictionary by storing each pair in order; a later pair
    /// with the same key replaces the earlier value.
    pub fn from_pairs(pairs: &Vec<(String, String)>) -> (d: Dictionary)
        ensures
            d.wf(),
            forall|k: Seq<char>| #[trigger] spec_has(d@, k) == spec_has(pairs@, k),
    {
        let mut d = Dictionary::new();
        let n = pairs.len();
        let mut i: usize = 0;
        while i < n
            invariant
                n == pairs@.len(),
                i <= n,
                d.wf(),
                forall|k: Seq<char>|
                    #[trigger] spec_has(d@, k) == spec_has(pairs@.take(i as int), k),
            decreases n - i,
        {
            let ghost before = d@;
            let _ = d.inner.set(pairs[i].0.as_str(), pairs[i].1.as_str());
            proof {
                let taken = pairs@.take(i as int);
                let taken1 = pairs@.take(i as int + 1);
                assert(taken1.drop_last() =~= taken);
                assert(taken1.last().0@ == pairs@[i as int].0@);
                assert forall|k: Seq<char>|
                    #[trigger] spec_has(d@, k) == spec_has(taken1, k) by {
                    if spec_has(d@, k) {
                        if k == pairs@[i as int].0@ {
                            assert(taken1[i as int].0@ == k);
                        } else {
                            assert(spec_get(d@, k) == spec_get(before, k));
                            if spec_get(d@, k) is Some {
                                assert(spec_has(before, k));
                                let j = choose|j: int|
                                    0 <= j < taken.len() && #[trigger] taken[j].0@ == k;
                                assert(taken1[j].0@ == k);
                            } else {
                                let j = choose|j: int|
                                    0 <= j < d@.len() && #[trigger] d@[j].0@ == k;
                                assert(spec_get(d@, k) is Some) by {
                                    lemma_get_at_index(d@, k, j);
                                }
                            }
                        }
                    }
                    if spec_has(taken1, k) {
                        let j = choose|j: int|
                            0 <= j < taken1.len() && #[trigger] taken1[j].0@ == k;
                        if j < i as int {
                            assert(taken[j].0@ == k);
                            assert(spec_has(before, k));
                            let m = choose|m: int|
                                0 <= m < before.len() && #[trigger] before[m].0@ == k;
                            lemma_get_at_index(before, k, m);
                            if k == pairs@[i as int].0@ {
                                assert(spec_get(d@, k) == Some(pairs@[i as int].1@));
                            } else {
                                assert(spec_get(d@, k) == spec_get(before, k));
                            }
                            if !spec_has(d@, k) {
                                assert(spec_get(d@, k) is None);
                            }
                        } else {
                            assert(spec_get(d@, k) == Some(pairs@[i as int].1@));
                            if !spec_has(d@, k) {
                                assert(spec_get(d@, k) is None);
                            }
                        }
                    }
                }
            }
            i = i + 1;
        }
        proof {
            assert(pairs@.take(n as int) =~= pairs@);
        }
        d
    }

    /// Store `value` under `key`; see [`DictMut::set`].
    pub fn set(&mut self, key: &str, value: &str) -> (r: Result<(), Error>)
        requires
            old(self).wf(),
        ensures
            r is Ok,
            final(self).wf(),
            spec_get(final(self)@, key@) == Some(value@),
            forall|k: Seq<char>|
                k != key@ ==> #[trigger] spec_get(final(self)@, k) == spec_get(old(self)@, k),
    {
        self.inner.set(key, value)
    }

    /// The value stored under `key`, if any.
    pub fn get(&self, key: &str) -> (r: Option<&String>)
        requires
            self.wf(),
        ensures
            match r {
                Some(v) => spec_get(self@, key@) == Some(v@),
                None => spec_get(self@, key@) is None,
            },
    {
        self.inner.get(key)
    }

    /// A read-only view of the entries.
    pub fn as_ref(&self) -> (r: DictRef<'_>)
        ensures
            r@ == self@,
    {
        self.inner.as_ref()
    }

    /// A fresh cursor over the entries.
    pub fn iter(&self) -> (it: DictIter<'_>)
        ensures
            it@ == self@,
            it.spec_pos() == 0,
    {
        self.inner.iter()
    }

    /// An independent copy with the same entries.
    pub fn duplicate(&self) -> (d: Dictionary)
        ensures
            d@ == self@,
    {
        let mut entries: Vec<(String, String)> = Vec::new();
        let n = self.inner.entries.len();
        let mut i: usize = 0;
        while i < n
            invariant
                n == self.inner.entries@.len(),
                i <= n,
                entries@ =~= self.inner.entries@.take(i as int),
            decreases n - i,
        {
            let k = self.inner.entries[i].0.clone();
            let v = self.inner.entries[i].1.clone();
            entries.push((k, v));
            proof {
                assert(entries@ =~= self.inner.entries@.take(i as int + 1));
            }
            i = i + 1;
        }
        proof {
            assert(self.inner.entries@.take(n as int) =~= self.inner.entries@);
        }
        Dictionary { inner: DictMut { entries } }
    }
}

impl<'a> DictRef<'a> {
    pub open spec fn wf(&self) -> bool {
        spec_keys_unique(self@)
    }

    /// The value stored under `key`, if any.
    pub fn get(&self, key: &str) -> (r: Option<&'a String>)
        requires
            self.wf(),
        ensures
            match r {
                Some(v) => spec_get(self@, key@) == Some(v@),
                None => spec_get(self@, key@) is None,
            },
    {
        let key_string = key.to_owned();
        let n = self.entries.len();
        let mut i: usize = 0;
        while i < n
            invariant
                self.wf(),
                n == self.entries@.len(),
                i <= n,
                forall|j: int| 0 <= j < i ==> #[trigger] self.entries@[j].0@ != key@,
                key_string@ == key@,
            decreases n - i,
        {
            if self.entries[i].0 == key_string {
                proof {
                    lemma_get_at_index(self@, key@, i as int);
                }
                return Some(&self.entries[i].1);
            }
            i = i + 1;
        }
        proof {
            if spec_has(self@, key@) {
                let j = choose|j: int|
                    0 <= j < self@.len() && #[trigger] self@[j].0@ == key@;
                assert(false);
            }
        }
        None
    }

    /// A fresh cursor over the entries.
    pub fn iter(&self) -> (it: DictIter<'a>)
        ensures
            it@ == self@,
            it.spec_pos() == 0,
    {
        DictIter { entries: self.entries, pos: 0 }
    }
}

impl<'a> DictIter<'a> {
    pub closed spec fn spec_pos(&self) -> int {
        self.pos as int
    }

    /// The entries the cursor walks.
    pub closed spec fn view(&self) -> Seq<(String, String)> {
        self.entries@
    }

    /// A cursor at the start of `entries`.
    pub fn new(entries: &'a Vec<(String, String)>) -> (it: DictIter<'a>)
        ensures
            it@ == entries@,
            it.spec_pos() == 0,
    {
        DictIter { entries, pos: 0 }
    }

    /// The next entry, or `None` once every entry has been yielded.
    pub fn next(&mut self) -> (r: Option<(&'a String, &'a String)>)
        ensures
            final(self)@ == old(self)@,
            old(self).spec_pos() < old(self)@.len() ==> {
                &&& final(self).spec_pos() == old(self).spec_pos() + 1
                &&& match r {
                    Some(kv) => kv.0@ == old(self)@[old(self).spec_pos()].0@ && kv.1@ == old(self)@[old(self).spec_pos()].1@,
                    None => false,
                }
            },
            old(self).spec_pos() >= old(self)@.len() ==> r is None && final(self).spec_pos()
                == old(self).spec_pos(),
    {
        if self.pos < self.entries.len() {
            let e = &self.entries[self.pos];
            self.pos = self.pos + 1;
            Some((&e.0, &e.1))
        } else {
            None
        }
    }
}

} // verus!
