//! Ordered shader macro definitions (`NAME -> value`).
use vstd::prelude::*;

verus! {

/// The abstract contents of a define set: entries in insertion order.
pub type DefineEntries = Seq<(Seq<char>, Seq<char>)>;

/// No name occurs twice.
pub open spec fn keys_distinct(s: DefineEntries) -> bool {
    forall|i: int, j: int| 0 <= i < s.len() && 0 <= j < s.len() && i != j ==> s[i].0 != s[j].0
}

/// Whether `k` is defined.
pub open spec fn has_key(s: DefineEntries, k: Seq<char>) -> bool {
    exists|i: int| 0 <= i < s.len() && s[i].0 == k
}

/// The position of `k` (meaningful when `has_key`).
pub open spec fn key_index(s: DefineEntries, k: Seq<char>) -> int {
    choose|i: int| 0 <= i < s.len() && s[i].0 == k
}

/// Setting `k` to `v`: an existing entry keeps its position and takes the
/// new value; a new name is appended.
pub open spec fn spec_set(s: DefineEntries, k: Seq<char>, v: Seq<char>) -> DefineEntries {
    if has_key(s, k) {
        s.update(key_index(s, k), (k, v))
    } else {
        s.push((k, v))
    }
}

/// Removing `k`: its entry disappears, the others keep their order.
pub open spec fn spec_remove(s: DefineEntries, k: Seq<char>) -> DefineEntries {
    if has_key(s, k) {
        s.remove(key_index(s, k))
    } else {
        s
    }
}

/// The value of `k`, if defined.
pub open spec fn spec_get(s: DefineEntries, k: Seq<char>) -> Option<Seq<char>> {
    if has_key(s, k) {
        Some(s[key_index(s, k)].1)
    } else {
        None
    }
}

/// Merging `o` into `s`: every entry of `o` is set in order, so `o` wins.
pub open spec fn spec_merge(s: DefineEntries, o: DefineEntries) -> DefineEntries
    decreases o.len(),
{
    if o.len() == 0 {
        s
    } else {
        spec_set(spec_merge(s, o.drop_last()), o.last().0, o.last().1)
    }
}

/// Shader macro definitions, kept in insertion order with unique names.
#[derive(Debug)]
pub struct ShaderDefines {
    entries: Vec<(String, String)>,
}

impl Clone for ShaderDefines {
    /// A copy with the same entries in the same order.
    fn clone(&self) -> (r: Self)
        ensures
            r.view() == self.view(),
            r.wf() == self.wf(),
    {
        let n = self.entries.len();
        let mut entries: Vec<(String, String)> = Vec::new();
        let mut i: usize = 0;
        while i < n
            invariant
                i <= n,
                n == self.entries@.len(),
                entries@.len() == i,
                forall|j: int| 0 <= j < i ==> (#[trigger] entries@[j]).0@ == self.entries@[j].0@
                    && entries@[j].1@ == self.entries@[j].1@,
            decreases n - i,
        {
            let k = self.entries[i].0.clone();
            let v = self.entries[i].1.clone();
            entries.push((k, v));
            i = i + 1;
        }
        let r = ShaderDefines { entries };
        assert(r.view() =~= self.view());
        r
    }
}

impl ShaderDefines {
    /// The entries, in insertion order.
    pub closed spec fn view(&self) -> DefineEntries {
        self.entries@.map_values(|e: (String, String)| (e.0@, e.1@))
    }

    /// The names are unique.
    pub closed spec fn wf(&self) -> bool {
        keys_distinct(self.view())
    }

    /// An empty set.
    pub fn new() -> (r: Self)
        ensures
            r.view() == Seq::<(Seq<char>, Seq<char>)>::empty(),
            r.wf(),
    {
        let r = ShaderDefines { entries: Vec::new() };
        assert(r.view() =~= Seq::<(Seq<char>, Seq<char>)>::empty());
        r
    }

    /// Number of definitions.
    pub fn len(&self) -> (r: usize)
        ensures
            r == self.view().len(),
    {
        self.entries.len()
    }

    fn find(&self, key: &String) -> (r: Option<usize>)
        requires
            self.wf(),
        ensures
            r matches Some(i) ==> i < self.view().len() && self.view()[i as int].0 == key@
                && key_index(self.view(), key@) == i && has_key(self.view(), key@),
            r is None ==> !has_key(self.view(), key@),
    {
        let mut i: usize = 0;
        while i < self.entries.len()
            invariant
                i <= self.entries@.len(),
                self.view().len() == self.entries@.len(),
                self.wf(),
                forall|j: int| 0 <= j < i ==> self.view()[j].0 != key@,
            decreases self.entries@.len() - i,
        {
            assert(self.view()[i as int] == (self.entries@[i as int].0@, self.entries@[i as int].1@));
            if self.entries[i].0 == *key {
                let ghost s = self.view();
                assert(s[i as int].0 == key@);
                assert(has_key(s, key@));
                let ghost k = key_index(s, key@);
                assert(s[k].0 == key@);
                assert(keys_distinct(s));
                assert(0 <= k < s.len());
                proof {
                    if k != i as int {
                        assert(s[k].0 != s[i as int].0);
                    }
                }
                assert(k == i);
                return Some(i);
            }
            i = i + 1;
        }
        None
    }

    /// The value of `key`, if defined.
    pub fn get(&self, key: &str) -> (r: Option<String>)
        requires
            self.wf(),
        ensures
            r matches Some(v) ==> spec_get(self.view(), key@) == Some(v@),
            r is None ==> spec_get(self.view(), key@) is None,
    {
        let k = key.to_owned();
        match self.find(&k) {
            Some(i) => {
                assert(self.view()[i as int] == (self.entries@[i as int].0@, self.entries@[i as int].1@));
                Some(self.entries[i].1.clone())
            },
            None => None,
        }
    }

    /// Defines `key` as `value` (replacing an existing value in place).
    pub fn set(&mut self, key: &str, value: &str)
        requires
            old(self).wf(),
        ensures
            final(self).wf(),
            final(self).view() == spec_set(old(self).view(), key@, value@),
    {
        let k = key.to_owned();
        let v = value.to_owned();
        let ghost s = self.view();
        match self.find(&k) {
            Some(i) => {
                self.entries.set(i, (k, v));
                assert(self.view() =~= s.update(i as int, (key@, value@)));
            },
            None => {
                self.entries.push((k, v));
                assert(self.view() =~= s.push((key@, value@)));
            },
        }
    }

    /// Removes `key` if defined.
    pub fn remove(&mut self, key: &str)
        requires
            old(self).wf(),
        ensures
            final(self).wf(),
            final(self).view() == spec_remove(old(self).view(), key@),
    {
        let k = key.to_owned();
        let ghost s = self.view();
        match self.find(&k) {
            Some(i) => {
                self.entries.remove(i);
                assert(self.view() =~= s.remove(i as int));
            },
            None => {},
        }
    }

    /// Sets every definition of `other`, in its order.
    pub fn merge(&mut self, other: &ShaderDefines)
        requires
            old(self).wf(),
        ensures
            final(self).wf(),
            final(self).view() == spec_merge(old(self).view(), other.view()),
    {
        let ghost start = self.view();
        let mut i: usize = 0;
        while i < other.entries.len()
            invariant
                i <= other.entries@.len(),
                other.view().len() == other.entries@.len(),
                self.wf(),
                self.view() == spec_merge(start, other.view().take(i as int)),
            decreases other.entries@.len() - i,
        {
            let ghost o = other.view();
            assert(o.take(i + 1).drop_last() =~= o.take(i as int));
            assert(o.take(i + 1).last() == o[i as int]);
            assert(o[i as int] == (other.entries@[i as int].0@, other.entries@[i as int].1@));
            let k = other.entries[i].0.as_str();
            let v = other.entries[i].1.as_str();
            self.set(k, v);
            i = i + 1;
        }
        assert(other.view().take(other.view().len() as int) =~= other.view());
    }

    /// The entries as `(name, value)` pairs in insertion order.
    pub fn entries(&self) -> (r: &Vec<(String, String)>)
        ensures
            r@.map_values(|e: (String, String)| (e.0@, e.1@)) == self.view(),
    {
        &self.entries
    }
}

/// After `set(k, v)`, `k` reads back as `v` and every other name reads back
/// as before.
pub proof fn lemma_get_after_set(s: DefineEntries, k: Seq<char>, v: Seq<char>, other: Seq<char>)
    requires
        keys_distinct(s),
    ensures
        spec_get(spec_set(s, k, v), k) == Some(v),
        other != k ==> spec_get(spec_set(s, k, v), other) == spec_get(s, other),
{
    let t = spec_set(s, k, v);
    if has_key(s, k) {
        let i = key_index(s, k);
        assert(t[i].0 == k);
        assert(has_key(t, k));
        let j = key_index(t, k);
        assert(j == i);
    } else {
        assert(t[s.len() as int].0 == k);
        assert(has_key(t, k));
        let j = key_index(t, k);
        assert(j == s.len());
    }
    if other != k {
        if has_key(s, other) {
            let i = key_index(s, other);
            assert(t[i].0 == other);
            assert(has_key(t, other));
            let j = key_index(t, other);
            assert(j == i);
        } else {
            if has_key(t, other) {
                let j = key_index(t, other);
                assert(s[j].0 == other);
            }
        }
    }
}

/// After `remove(k)`, `k` is undefined and every other name reads back as
/// before.
pub proof fn lemma_get_after_remove(s: DefineEntries, k: Seq<char>, other: Seq<char>)
    requires
        keys_distinct(s),
    ensures
        spec_get(spec_remove(s, k), k) is None,
        other != k ==> spec_get(spec_remove(s, k), other) == spec_get(s, other),
{
    let t = spec_remove(s, k);
    if has_key(s, k) {
        let i = key_index(s, k);
        if has_key(t, k) {
            let j = key_index(t, k);
            if j < i {
                assert(t[j] == s[j]);
            } else {
                assert(t[j] == s[j + 1]);
            }
        }
        if other != k {
            if has_key(s, other) {
                let a = key_index(s, other);
                let b = if a < i { a } else { a - 1 };
                assert(t[b] == s[a]);
                assert(has_key(t, other));
                let j = key_index(t, other);
                if j < i { assert(t[j] == s[j]); } else { assert(t[j] == s[j + 1]); }
            } else if has_key(t, other) {
                let j = key_index(t, other);
                if j < i { assert(t[j] == s[j]); } else { assert(t[j] == s[j + 1]); }
            }
        }
    }
}

} // verus!
