//! A keyed store that remembers the order in which keys were first inserted.

use vstd::prelude::*;

verus! {

/// Keys whose executable equality is the mathematical one.
pub trait Key: Copy + Sized {
    fn key_eq(&self, other: &Self) -> (r: bool)
        ensures
            r == (*self == *other),
    ;
}

impl Key for u32 {
    fn key_eq(&self, other: &Self) -> (r: bool) {
        *self == *other
    }
}

impl Key for u64 {
    fn key_eq(&self, other: &Self) -> (r: bool) {
        *self == *other
    }
}

spec fn keys_of<K, V>(s: Seq<(K, V)>) -> Seq<K> {
    s.map_values(|e: (K, V)| e.0)
}

spec fn view_of<K, V>(s: Seq<(K, V)>) -> Map<K, V> {
    Map::new(|k: K| keys_of(s).contains(k), |k: K| s[keys_of(s).index_of(k)].1)
}

/// A map from keys to values that also keeps its keys in insertion order.
pub struct KeyMap<K: Key, V> {
    entries: Vec<(K, V)>,
}

impl<K: Key, V> KeyMap<K, V> {
    #[verifier::type_invariant]
    closed spec fn unique_keys(&self) -> bool {
        keys_of(self.entries@).no_duplicates()
    }

    /// The keys, in the order in which they were first inserted.
    pub closed spec fn keys(&self) -> Seq<K> {
        keys_of(self.entries@)
    }

    /// The mapping from keys to values.
    pub closed spec fn view(&self) -> Map<K, V> {
        view_of(self.entries@)
    }

    pub fn new() -> (m: Self)
        ensures
            m@ == Map::<K, V>::empty(),
            m.keys() == Seq::<K>::empty(),
    {
        let m = KeyMap { entries: Vec::new() };
        assert(m@ =~= Map::<K, V>::empty());
        assert(m.keys() =~= Seq::<K>::empty());
        m
    }

    fn find(&self, k: &K) -> (r: Option<usize>)
        ensures
            match r {
                Some(i) => i < self.entries@.len() && self.entries@[i as int].0 == *k
                    && self.keys().contains(*k) && self.keys().index_of(*k) == i,
                None => !self.keys().contains(*k),
            },
    {
        proof { use_type_invariant(self); }
        find_in(&self.entries, k)
    }

    pub fn len(&self) -> (n: usize)
        ensures
            n == self.keys().len(),
    {
        self.entries.len()
    }

    pub fn contains(&self, k: &K) -> (b: bool)
        ensures
            b == self@.contains_key(*k),
    {
        self.find(k).is_some()
    }

    pub fn get(&self, k: &K) -> (r: Option<&V>)
        ensures
            match r {
                Some(v) => self@.contains_key(*k) && *v == self@[*k],
                None => !self@.contains_key(*k),
            },
    {
        match self.find(k) {
            Some(i) => Some(&self.entries[i].1),
            None => None,
        }
    }

    /// The key at position `i` of the insertion order.
    pub fn key_at(&self, i: usize) -> (k: K)
        requires
            i < self.keys().len(),
        ensures
            k == self.keys()[i as int],
            self@.contains_key(k),
    {
        assert(self.keys()[i as int] == self.entries@[i as int].0);
        self.entries[i].0
    }

    pub fn insert(&mut self, k: K, v: V)
        ensures
            final(self)@ == old(self)@.insert(k, v),
            final(self).keys() == if old(self)@.contains_key(k) {
                old(self).keys()
            } else {
                old(self).keys().push(k)
            },
    {
        proof { use_type_invariant(&*self); }
        let ghost old_keys = self.keys();
        let ghost old_view = self@;
        let mut entries = Vec::new();
        std::mem::swap(&mut entries, &mut self.entries);
        let ghost old_entries = entries@;
        assert(keys_of(old_entries) == old_keys);
        match find_in(&entries, &k) {
            Some(i) => {
                entries.set(i, (k, v));
                assert(keys_of(entries@) =~= old_keys);
                proof {
                    assert forall|x: K| #[trigger] view_of(entries@).contains_key(x) implies
                        view_of(entries@)[x] == old_view.insert(k, v)[x] by {
                        let j = old_keys.index_of(x);
                        assert(old_keys[j] == x);
                        if x != k {
                            assert(j != i);
                        }
                    }
                }
                assert(view_of(entries@) =~= old_view.insert(k, v));
            },
            None => {
                entries.push((k, v));
                assert(keys_of(entries@) =~= old_keys.push(k));
                proof {
                    let nk = keys_of(entries@);
                    assert forall|a: int, b: int| 0 <= a < b < nk.len() implies nk[a] != nk[b] by {
                        if b == nk.len() - 1 {
                            assert(old_keys[a] == nk[a]);
                        }
                    }
                    assert forall|x: K| #[trigger] view_of(entries@).contains_key(x) implies
                        view_of(entries@)[x] == old_view.insert(k, v)[x] by {
                        if x != k {
                            let j = old_keys.index_of(x);
                            assert(old_keys[j] == x);
                            assert(nk[j] == x);
                        } else {
                            assert(nk[old_keys.len() as int] == k);
                        }
                    }
                    assert forall|x: K| #[trigger] old_view.insert(k, v).contains_key(x) implies
                        view_of(entries@).contains_key(x) by {
                        if x != k {
                            let j = old_keys.index_of(x);
                            assert(old_keys[j] == x);
                            assert(nk[j] == x);
                        } else {
                            assert(nk[old_keys.len() as int] == k);
                        }
                    }
                }
                assert(view_of(entries@) =~= old_view.insert(k, v));
            },
        }
        self.entries = entries;
    }

    pub fn remove(&mut self, k: &K)
        ensures
            final(self)@ == old(self)@.remove(*k),
            final(self).keys() == if old(self)@.contains_key(*k) {
                old(self).keys().remove(old(self).keys().index_of(*k))
            } else {
                old(self).keys()
            },
    {
        proof { use_type_invariant(&*self); }
        let ghost old_keys = self.keys();
        let ghost old_view = self@;
        let mut entries = Vec::new();
        std::mem::swap(&mut entries, &mut self.entries);
        assert(keys_of(entries@) == old_keys);
        match find_in(&entries, k) {
            Some(i) => {
                entries.remove(i);
                let ghost nk = keys_of(entries@);
                assert(nk =~= old_keys.remove(i as int));
                proof {
                    assert forall|a: int, b: int| 0 <= a < b < nk.len() implies nk[a] != nk[b] by {
                        let a2 = if a < i { a } else { a + 1 };
                        let b2 = if b < i { b } else { b + 1 };
                        assert(nk[a] == old_keys[a2]);
                        assert(nk[b] == old_keys[b2]);
                    }
                    assert forall|x: K| #[trigger] view_of(entries@).contains_key(x) implies
                        view_of(entries@)[x] == old_view.remove(*k)[x] by {
                        let j = nk.index_of(x);
                        let j2 = if j < i { j } else { j + 1 };
                        assert(old_keys[j2] == x);
                        assert(old_keys.index_of(x) == j2);
                    }
                    assert forall|x: K| #[trigger] old_view.remove(*k).contains_key(x) implies
                        view_of(entries@).contains_key(x) by {
                        let j = old_keys.index_of(x);
                        assert(old_keys[j] == x);
                        if j < i {
                            assert(nk[j] == x);
                        } else {
                            assert(nk[j - 1] == x);
                        }
                    }
                }
                assert(view_of(entries@) =~= old_view.remove(*k));
            },
            None => {
                assert(view_of(entries@) =~= old_view.remove(*k));
            },
        }
        self.entries = entries;
    }
}

fn find_in<K: Key, V>(entries: &Vec<(K, V)>, k: &K) -> (r: Option<usize>)
    requires
        keys_of(entries@).no_duplicates(),
    ensures
        match r {
            Some(i) => i < entries@.len() && entries@[i as int].0 == *k
                && keys_of(entries@).contains(*k) && keys_of(entries@).index_of(*k) == i,
            None => !keys_of(entries@).contains(*k),
        },
{
    let mut i: usize = 0;
    while i < entries.len()
        invariant
            i <= entries@.len(),
            keys_of(entries@).no_duplicates(),
            forall|j: int| 0 <= j < i ==> entries@[j].0 != *k,
        decreases entries@.len() - i,
    {
        if entries[i].0.key_eq(k) {
            assert(keys_of(entries@)[i as int] == *k);
            assert(keys_of(entries@).contains(*k));
            return Some(i);
        }
        i = i + 1;
    }
    proof {
        if keys_of(entries@).contains(*k) {
            let j = choose|j: int| 0 <= j < keys_of(entries@).len() && keys_of(entries@)[j] == *k;
            assert(entries@[j].0 == *k);
        }
    }
    None
}

} // verus!

verus! {

/// The index of the first occurrence of `x` in `s`.
pub open spec fn first_index<T>(s: Seq<T>, x: T) -> int {
    choose|i: int| 0 <= i < s.len() && s[i] == x && (forall|j: int| 0 <= j < i ==> s[j] != x)
}

/// `s` without the first occurrence of `x`, or `s` itself when `x` does not occur.
pub open spec fn seq_remove_first<T>(s: Seq<T>, x: T) -> Seq<T> {
    if s.contains(x) {
        s.remove(first_index(s, x))
    } else {
        s
    }
}

proof fn lemma_first_index<T>(s: Seq<T>, x: T, i: int)
    requires
        0 <= i < s.len(),
        s[i] == x,
        forall|j: int| 0 <= j < i ==> s[j] != x,
    ensures
        first_index(s, x) == i,
        s.contains(x),
{
    let k = first_index(s, x);
    assert(0 <= k < s.len() && s[k] == x && (forall|j: int| 0 <= j < k ==> s[j] != x));
    if k < i {
        assert(s[k] != x);
    }
    if i < k {
        assert(s[i] != x);
    }
}

/// Removing an element from a sequence without duplicates leaves a sequence
/// without duplicates that holds everything else it held.
pub proof fn lemma_remove_first_no_duplicates<T>(s: Seq<T>, x: T)
    requires
        s.no_duplicates(),
    ensures
        seq_remove_first(s, x).no_duplicates(),
        forall|y: T| #[trigger] seq_remove_first(s, x).contains(y) <==> (s.contains(y) && y != x),
{
    if s.contains(x) {
        let k = first_index(s, x);
        assert(0 <= k < s.len() && s[k] == x);
        let r = s.remove(k);
        assert forall|y: T| #[trigger] r.contains(y) <==> (s.contains(y) && y != x) by {
            if r.contains(y) {
                let i = r.index_of(y);
                if i < k {
                    assert(s[i] == y);
                } else {
                    assert(s[i + 1] == y);
                    assert(i + 1 != k);
                }
            }
            if s.contains(y) && y != x {
                let i = s.index_of(y);
                assert(i != k);
                if i < k {
                    assert(r[i] == y);
                } else {
                    assert(r[i - 1] == y);
                }
            }
        }
        assert forall|i: int, j: int| 0 <= i < j < r.len() implies r[i] != r[j] by {
            let i2 = if i < k { i } else { i + 1 };
            let j2 = if j < k { j } else { j + 1 };
            assert(r[i] == s[i2] && r[j] == s[j2] && i2 < j2);
        }
    }
}

/// In a sequence followed by `t`, where the sequence does not hold `t[0]`,
/// the first occurrence of `t[0]` is where `t` begins.
pub proof fn lemma_remove_first_of_appended<T>(s: Seq<T>, t: Seq<T>)
    requires
        t.len() > 0,
        !s.contains(t[0]),
    ensures
        seq_remove_first(s + t, t[0]) == s + t.drop_first(),
{
    assert forall|j: int| 0 <= j < s.len() implies (s + t)[j] != t[0] by {
        if (s + t)[j] == t[0] {
            assert(s[j] == t[0]);
        }
    }
    lemma_first_index(s + t, t[0], s.len() as int);
    assert((s + t).remove(s.len() as int) =~= s + t.drop_first());
}

/// Appending an element that a sequence does not hold and removing it again
/// gives the sequence back; in between the element is there.
pub proof fn lemma_push_then_remove<T>(s: Seq<T>, x: T)
    requires
        !s.contains(x),
    ensures
        s.push(x).contains(x),
        seq_remove_first(s.push(x), x) == s,
{
    assert(s.push(x)[s.len() as int] == x);
    lemma_remove_first_of_appended(s, seq![x]);
    assert(s.push(x) =~= s + seq![x]);
    assert(s + seq![x].drop_first() =~= s);
}

/// Removes the first occurrence of `x` from `v`, if any, and returns where it was.
pub fn remove_first<T: Key>(v: &mut Vec<T>, x: &T) -> (pos: Option<usize>)
    ensures
        final(v)@ == seq_remove_first(old(v)@, *x),
        match pos {
            Some(i) => i < old(v)@.len() && i == first_index(old(v)@, *x) && old(v)@.contains(*x),
            None => !old(v)@.contains(*x),
        },
{
    match position(v, x) {
        Some(i) => {
            proof { lemma_first_index(v@, *x, i as int); }
            v.remove(i);
            Some(i)
        },
        None => None,
    }
}

/// The index of the first occurrence of `x` in `v`, if any.
pub fn position<T: Key>(v: &Vec<T>, x: &T) -> (pos: Option<usize>)
    ensures
        match pos {
            Some(i) => i < v@.len() && v@[i as int] == *x && (forall|j: int| 0 <= j < i ==> v@[j] != *x),
            None => !v@.contains(*x),
        },
{
    let mut i: usize = 0;
    while i < v.len()
        invariant
            i <= v@.len(),
            forall|j: int| 0 <= j < i ==> v@[j] != *x,
        decreases v@.len() - i,
    {
        if v[i].key_eq(x) {
            return Some(i);
        }
        i = i + 1;
    }
    None
}

} // verus!
