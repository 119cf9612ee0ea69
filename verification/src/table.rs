//! A table of values keyed by a text label, in insertion order, where no
//! label occurs twice.

use vstd::prelude::*;

verus! {

/// Whether some entry of `s` carries the label `k`.
pub open spec fn has_key<T>(s: Seq<(Seq<char>, T)>, k: Seq<char>) -> bool {
    exists|i: int| 0 <= i < s.len() && #[trigger] s[i].0 == k
}

/// No label occurs twice in `s`.
pub open spec fn unique_keys<T>(s: Seq<(Seq<char>, T)>) -> bool {
    forall|i: int, j: int|
        0 <= i < s.len() && 0 <= j < s.len() && i != j ==> #[trigger] s[i].0 != #[trigger] s[j].0
}

/// The position of the entry labelled `k` (meaningful when `has_key(s, k)`).
pub open spec fn key_index<T>(s: Seq<(Seq<char>, T)>, k: Seq<char>) -> int {
    choose|i: int| 0 <= i < s.len() && #[trigger] s[i].0 == k
}

/// The value labelled `k`, if any.
pub open spec fn lookup<T>(s: Seq<(Seq<char>, T)>, k: Seq<char>) -> Option<T> {
    if has_key(s, k) {
        Some(s[key_index(s, k)].1)
    } else {
        None
    }
}

/// The labels of `s`, in order.
pub open spec fn keys_of<T>(s: Seq<(Seq<char>, T)>) -> Seq<Seq<char>> {
    s.map_values(|e: (Seq<char>, T)| e.0)
}

/// With unique labels, the entry at `i` is the one that `key_index` names.
pub proof fn lemma_key_index_unique<T>(s: Seq<(Seq<char>, T)>, i: int)
    requires
        unique_keys(s),
        0 <= i < s.len(),
    ensures
        has_key(s, s[i].0),
        key_index(s, s[i].0) == i,
        lookup(s, s[i].0) == Some(s[i].1),
{
    let k = s[i].0;
    assert(s[i].0 == k);
    let j = key_index(s, k);
    assert(0 <= j < s.len() && s[j].0 == k);
}

/// Removing the entry at `i` keeps labels unique, leaves no entry labelled as
/// it was, and leaves every other label's lookup as it was.
pub proof fn lemma_remove_lookups<T>(s: Seq<(Seq<char>, T)>, i: int)
    requires
        unique_keys(s),
        0 <= i < s.len(),
    ensures
        unique_keys(s.remove(i)),
        !has_key(s.remove(i), s[i].0),
        forall|k: Seq<char>| k != s[i].0 ==> #[trigger] lookup(s.remove(i), k) == lookup(s, k),
{
    let t = s.remove(i);
    assert forall|a: int, b: int|
        0 <= a < t.len() && 0 <= b < t.len() && a != b implies #[trigger] t[a].0 != #[trigger] t[b].0 by {
        let oa = if a < i { a } else { a + 1 };
        let ob = if b < i { b } else { b + 1 };
        assert(s[oa].0 != s[ob].0);
    }
    if has_key(t, s[i].0) {
        let j = key_index(t, s[i].0);
        let oj = if j < i { j } else { j + 1 };
        assert(t[j] == s[oj]);
    }
    assert forall|k: Seq<char>| k != s[i].0 implies #[trigger] lookup(t, k) == lookup(s, k) by {
        if has_key(s, k) {
            let j = key_index(s, k);
            assert(s[j].0 == k);
            let tj = if j < i { j } else { j - 1 };
            assert(t[tj] == s[j]);
            lemma_key_index_unique(t, tj);
            lemma_key_index_unique(s, j);
        } else if has_key(t, k) {
            let j = key_index(t, k);
            let oj = if j < i { j } else { j + 1 };
            assert(t[j] == s[oj]);
        }
    }
}

/// The table with `v` stored under `k`: in place of the entry labelled `k` if
/// there is one, else as a new last entry.
pub open spec fn stored<T>(s: Seq<(Seq<char>, T)>, k: Seq<char>, v: T) -> Seq<(Seq<char>, T)> {
    if has_key(s, k) {
        s.update(key_index(s, k), (k, v))
    } else {
        s.push((k, v))
    }
}

/// Storing `v` under `k` keeps labels unique, makes the lookup of `k` give
/// `v`, and leaves every other label's lookup as it was.
pub proof fn lemma_store_lookups<T>(s: Seq<(Seq<char>, T)>, k: Seq<char>, v: T)
    requires
        unique_keys(s),
    ensures
        unique_keys(stored(s, k, v)),
        lookup(stored(s, k, v), k) == Some(v),
        forall|k2: Seq<char>| k2 != k ==> #[trigger] lookup(stored(s, k, v), k2) == lookup(s, k2),
{
    let t = stored(s, k, v);
    let i = if has_key(s, k) { key_index(s, k) } else { s.len() as int };
    if has_key(s, k) {
        assert(s[i].0 == k);
    }
    assert forall|a: int, b: int|
        0 <= a < t.len() && 0 <= b < t.len() && a != b implies #[trigger] t[a].0 != #[trigger] t[b].0 by {
        if a != i && b != i {
            assert(s[a].0 != s[b].0);
        } else if a == i {
            assert(t[b].0 == s[b].0);
            if has_key(s, k) {
                assert(s[i].0 != s[b].0);
            } else {
                assert(s[b].0 != k);
            }
        } else {
            assert(t[a].0 == s[a].0);
            if has_key(s, k) {
                assert(s[i].0 != s[a].0);
            } else {
                assert(s[a].0 != k);
            }
        }
    }
    assert(t[i] == (k, v));
    lemma_key_index_unique(t, i);
    assert forall|k2: Seq<char>| k2 != k implies #[trigger] lookup(t, k2) == lookup(s, k2) by {
        if has_key(s, k2) {
            let j = key_index(s, k2);
            assert(s[j].0 == k2);
            assert(j != i);
            assert(t[j] == s[j]);
            lemma_key_index_unique(t, j);
            lemma_key_index_unique(s, j);
        } else if has_key(t, k2) {
            let j = key_index(t, k2);
            assert(t[j].0 == k2);
            assert(j != i);
            assert(t[j] == s[j]);
        }
    }
}

/// Labelled values in insertion order; each label occurs at most once.
#[derive(Debug)]
pub struct LabelTable<T> {
    entries: Vec<(String, T)>,
}

impl<T> View for LabelTable<T> {
    type V = Seq<(Seq<char>, T)>;

    closed spec fn view(&self) -> Seq<(Seq<char>, T)> {
        self.entries@.map_values(|e: (String, T)| (e.0@, e.1))
    }
}

impl<T> LabelTable<T> {
    /// The table's invariant: no label occurs twice.
    pub open spec fn wf(&self) -> bool {
        unique_keys(self@)
    }

    /// An empty table.
    pub fn new() -> (t: Self)
        ensures
            t.wf(),
            t@ == Seq::<(Seq<char>, T)>::empty(),
    {
        let t = LabelTable { entries: Vec::new() };
        assert(t@ =~= Seq::<(Seq<char>, T)>::empty());
        t
    }

    /// The number of entries.
    pub fn len(&self) -> (n: usize)
        ensures
            n == self@.len(),
    {
        self.entries.len()
    }

    /// The label of the entry at `i`.
    pub fn key_at(&self, i: usize) -> (k: &String)
        requires
            i < self@.len(),
        ensures
            k@ == self@[i as int].0,
    {
        &self.entries[i].0
    }

    /// The value of the entry at `i`.
    pub fn value_at(&self, i: usize) -> (v: &T)
        requires
            i < self@.len(),
        ensures
            *v == self@[i as int].1,
    {
        &self.entries[i].1
    }

    /// The position of the entry labelled `key`, if there is one.
    pub fn find(&self, key: &str) -> (r: Option<usize>)
        requires
            self.wf(),
        ensures
            r is None <==> !has_key(self@, key@),
            r matches Some(i) ==> i < self@.len() && self@[i as int].0 == key@ && key_index(
                self@,
                key@,
            ) == i,
    {
        let k: String = key.to_owned();
        let n = self.entries.len();
        let mut i: usize = 0;
        while i < n
            invariant
                n == self@.len(),
                self.wf(),
                k@ == key@,
                i <= n,
                forall|j: int| 0 <= j < i ==> self@[j].0 != key@,
            decreases n - i,
        {
            assert(self@[i as int].0 == self.entries@[i as int].0@);
            if self.entries[i].0 == k {
                proof {
                    lemma_key_index_unique(self@, i as int);
                }
                return Some(i);
            }
            i = i + 1;
        }
        proof {
            if has_key(self@, key@) {
                let j = key_index(self@, key@);
                assert(self@[j].0 == key@);
            }
        }
        None
    }

    /// Whether some entry is labelled `key`.
    pub fn contains(&self, key: &str) -> (b: bool)
        requires
            self.wf(),
        ensures
            b == has_key(self@, key@),
    {
        self.find(key).is_some()
    }

    /// The value labelled `key`, if any.
    pub fn get(&self, key: &str) -> (r: Option<&T>)
        requires
            self.wf(),
        ensures
            r matches Some(v) ==> lookup(self@, key@) == Some(*v),
            r is None ==> lookup(self@, key@) is None,
    {
        match self.find(key) {
            Some(i) => {
                proof {
                    lemma_key_index_unique(self@, i as int);
                }
                Some(&self.entries[i].1)
            },
            None => None,
        }
    }

    /// The first entry's value, if the table is not empty.
    pub fn first(&self) -> (r: Option<&T>)
        ensures
            self@.len() == 0 ==> r is None,
            self@.len() > 0 ==> r == Some(&self@[0].1),
    {
        if self.entries.len() == 0 {
            None
        } else {
            Some(&self.entries[0].1)
        }
    }

    /// Appends an entry under a label that the table does not hold yet.
    pub fn push_new(&mut self, key: String, value: T)
        requires
            old(self).wf(),
            !has_key(old(self)@, key@),
        ensures
            final(self).wf(),
            final(self)@ == old(self)@.push((key@, value)),
    {
        let ghost k = key@;
        self.entries.push((key, value));
        assert(self@ =~= old(self)@.push((k, value)));
    }

    /// Stores `value` under `key`: in place of the entry labelled `key` if
    /// there is one, else as a new last entry.
    pub fn upsert(&mut self, key: String, value: T)
        requires
            old(self).wf(),
        ensures
            final(self).wf(),
            final(self)@ == stored(old(self)@, key@, value),
            lookup(final(self)@, key@) == Some(value),
            forall|k: Seq<char>| k != key@ ==> #[trigger] lookup(final(self)@, k) == lookup(old(self)@, k),
    {
        proof {
            lemma_store_lookups(old(self)@, key@, value);
        }
        match self.find(key.as_str()) {
            Some(i) => {
                let ghost k = key@;
                let _ = self.entries.remove(i);
                self.entries.insert(i, (key, value));
                assert(self@ =~= old(self)@.update(i as int, (k, value)));
                assert forall|a: int, b: int|
                    0 <= a < self@.len() && 0 <= b < self@.len() && a != b implies #[trigger] self@[a].0
                    != #[trigger] self@[b].0 by {
                    if a != i && b != i {
                        assert(old(self)@[a].0 != old(self)@[b].0);
                    }
                }
            },
            None => {
                self.push_new(key, value);
            },
        }
    }

    /// Removes the entry at position `i` and hands it back.
    pub fn remove_at(&mut self, i: usize) -> (e: (String, T))
        requires
            old(self).wf(),
            i < old(self)@.len(),
        ensures
            final(self).wf(),
            final(self)@ == old(self)@.remove(i as int),
            e.0@ == old(self)@[i as int].0,
            e.1 == old(self)@[i as int].1,
    {
        let e = self.entries.remove(i);
        assert(self@ =~= old(self)@.remove(i as int));
        assert forall|a: int, b: int|
            0 <= a < self@.len() && 0 <= b < self@.len() && a != b implies #[trigger] self@[a].0
            != #[trigger] self@[b].0 by {
            let oa = if a < i { a } else { a + 1 };
            let ob = if b < i { b } else { b + 1 };
            assert(old(self)@[oa].0 != old(self)@[ob].0);
        }
        e
    }

    /// Puts an entry back at position `i`, under a label the table does not hold.
    pub fn insert_at(&mut self, i: usize, key: String, value: T)
        requires
            old(self).wf(),
            i <= old(self)@.len(),
            !has_key(old(self)@, key@),
        ensures
            final(self).wf(),
            final(self)@ == old(self)@.insert(i as int, (key@, value)),
    {
        let ghost k = key@;
        self.entries.insert(i, (key, value));
        assert(self@ =~= old(self)@.insert(i as int, (k, value)));
        assert forall|a: int, b: int|
            0 <= a < self@.len() && 0 <= b < self@.len() && a != b implies #[trigger] self@[a].0
            != #[trigger] self@[b].0 by {
            if a == i {
                let ob = if b < i { b } else { b - 1 };
                assert(old(self)@[ob].0 == self@[b].0);
            } else if b == i {
                let oa = if a < i { a } else { a - 1 };
                assert(old(self)@[oa].0 == self@[a].0);
            } else {
                let oa = if a < i { a } else { a - 1 };
                let ob = if b < i { b } else { b - 1 };
                assert(old(self)@[oa].0 != old(self)@[ob].0);
            }
        }
    }

    /// Replaces the value of the entry at position `i`, keeping its label, and
    /// hands back the value it held.
    pub fn replace_at(&mut self, i: usize, value: T) -> (prev: T)
        requires
            old(self).wf(),
            i < old(self)@.len(),
        ensures
            final(self).wf(),
            final(self)@ == old(self)@.update(i as int, (old(self)@[i as int].0, value)),
            prev == old(self)@[i as int].1,
    {
        let (k, prev) = self.remove_at(i);
        proof {
            let s = old(self)@;
            if has_key(self@, k@) {
                let j = key_index(self@, k@);
                let oj = if j < i { j } else { j + 1 };
                assert(s[oj].0 == k@);
            }
        }
        self.insert_at(i, k, value);
        assert(self@ =~= old(self)@.update(i as int, (old(self)@[i as int].0, value)));
        prev
    }

    /// Removes the entry labelled `key` and hands back its value; `None`, with
    /// the table unchanged, when no entry has that label.
    pub fn remove(&mut self, key: &str) -> (r: Option<T>)
        requires
            old(self).wf(),
        ensures
            final(self).wf(),
            has_key(old(self)@, key@) ==> r == Some(old(self)@[key_index(old(self)@, key@)].1)
                && final(self)@ == old(self)@.remove(key_index(old(self)@, key@)),
            !has_key(old(self)@, key@) ==> r is None && final(self)@ == old(self)@,
            !has_key(final(self)@, key@),
            forall|k: Seq<char>| k != key@ ==> #[trigger] lookup(final(self)@, k) == lookup(old(self)@, k),
    {
        match self.find(key) {
            Some(i) => {
                proof {
                    lemma_remove_lookups(old(self)@, i as int);
                }
                let (_, v) = self.remove_at(i);
                Some(v)
            },
            None => None,
        }
    }
}

} // verus!
