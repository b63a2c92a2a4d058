//! Tables and sets that are walked in the order in which they were filled.
use crate::ids::Key;
use vstd::prelude::*;

verus! {

/// Where the key `k` stands in `s`, or the length of `s` where it does not.
pub open spec fn position<K, V>(s: Seq<(K, V)>, k: K) -> int
    decreases s.len(),
{
    if s.len() == 0 {
        0
    } else if s[0].0 == k {
        0
    } else {
        1 + position(s.drop_first(), k)
    }
}

/// What the table `s` holds for `k`.
pub open spec fn lookup<K, V>(s: Seq<(K, V)>, k: K) -> Option<V> {
    if position(s, k) < s.len() {
        Some(s[position(s, k)].1)
    } else {
        None
    }
}

/// The table `s` with `v` for `k`: in the place of `k`, or at the end.
pub open spec fn put<K, V>(s: Seq<(K, V)>, k: K, v: V) -> Seq<(K, V)> {
    if position(s, k) < s.len() {
        s.update(position(s, k), (k, v))
    } else {
        s.push((k, v))
    }
}

/// The table `s` without the key `k`.
pub open spec fn without<K, V>(s: Seq<(K, V)>, k: K) -> Seq<(K, V)> {
    s.filter(|e: (K, V)| e.0 != k)
}

/// No key stands twice.
pub open spec fn distinct_keys<K, V>(s: Seq<(K, V)>) -> bool {
    forall|i: int, j: int| 0 <= i < j < s.len() ==> (#[trigger] s[i]).0 != (#[trigger] s[j]).0
}

/// The set `s` with `k`: unchanged where `k` is in it, else with `k` at the end.
pub open spec fn with_item<K>(s: Seq<K>, k: K) -> Seq<K> {
    if s.contains(k) {
        s
    } else {
        s.push(k)
    }
}

/// The set `s` without `k`.
pub open spec fn without_item<K>(s: Seq<K>, k: K) -> Seq<K> {
    s.filter(|e: K| e != k)
}

pub proof fn lemma_position<K, V>(s: Seq<(K, V)>, k: K)
    ensures
        0 <= position(s, k) <= s.len(),
        position(s, k) < s.len() ==> s[position(s, k)].0 == k,
        forall|j: int| 0 <= j < position(s, k) ==> (#[trigger] s[j]).0 != k,
    decreases s.len(),
{
    if s.len() > 0 && s[0].0 != k {
        let t = s.drop_first();
        lemma_position(t, k);
        assert forall|j: int| 0 <= j < position(s, k) implies (#[trigger] s[j]).0 != k by {
            if j > 0 {
                assert(t[j - 1] == s[j]);
            }
        }
    }
}

pub proof fn lemma_position_is<K, V>(s: Seq<(K, V)>, k: K, i: int)
    requires
        0 <= i <= s.len(),
        i < s.len() ==> s[i].0 == k,
        forall|j: int| 0 <= j < i ==> (#[trigger] s[j]).0 != k,
    ensures
        position(s, k) == i,
{
    lemma_position(s, k);
    let p = position(s, k);
    if p < i {
        assert(s[p].0 != k);
    } else if i < p {
        assert(s[i].0 != k);
    }
}

/// A value that was put is the value that is found.
pub proof fn lemma_lookup_put<K, V>(s: Seq<(K, V)>, k: K, v: V)
    ensures
        lookup(put(s, k, v), k) == Some(v),
{
    lemma_position(s, k);
    lemma_position_is(put(s, k, v), k, position(s, k));
}

/// To put a value under one key leaves what stands under another.
pub proof fn lemma_lookup_put_other<K, V>(s: Seq<(K, V)>, k: K, v: V, other: K)
    requires
        k != other,
    ensures
        lookup(put(s, k, v), other) == lookup(s, other),
{
    lemma_position(s, k);
    lemma_position(s, other);
    let p = position(s, other);
    let t = put(s, k, v);
    if p < s.len() {
        lemma_position_is(t, other, p);
    } else {
        lemma_position_is(t, other, t.len() as int);
    }
}

/// A key that was removed is not found, and every other is found as before.
pub proof fn lemma_lookup_without<K, V>(s: Seq<(K, V)>, k: K, other: K)
    ensures
        lookup(without(s, k), k) is None,
        k != other ==> lookup(without(s, k), other) == lookup(s, other),
    decreases s.len(),
{
    reveal_with_fuel(Seq::filter, 2);
    let f = |e: (K, V)| e.0 != k;
    if s.len() > 0 {
        let t = s.drop_last();
        lemma_lookup_without(t, k, other);
        lemma_lookup_push(t, s.last(), other);
        assert(t.push(s.last()) =~= s);
        if f(s.last()) {
            assert(without(s, k) =~= without(t, k).push(s.last()));
            lemma_lookup_push(without(t, k), s.last(), k);
            lemma_lookup_push(without(t, k), s.last(), other);
        } else {
            assert(without(s, k) =~= without(t, k));
        }
    }
}

pub proof fn lemma_lookup_push<K, V>(s: Seq<(K, V)>, e: (K, V), k: K)
    ensures
        lookup(s.push(e), k) == match lookup(s, k) {
            Some(v) => Some(v),
            None => if e.0 == k {
                Some(e.1)
            } else {
                None
            },
        },
{
    lemma_position(s, k);
    let t = s.push(e);
    let p = position(s, k);
    if p < s.len() {
        lemma_position_is(t, k, p);
    } else if e.0 == k {
        lemma_position_is(t, k, s.len() as int);
    } else {
        lemma_position_is(t, k, t.len() as int);
    }
}

/// To put a value keeps the keys distinct.
pub proof fn lemma_put_distinct<K, V>(s: Seq<(K, V)>, k: K, v: V)
    requires
        distinct_keys(s),
    ensures
        distinct_keys(put(s, k, v)),
{
    lemma_position(s, k);
}

/// What a filter lets through was there before.
pub proof fn lemma_filtered_from<T>(s: Seq<T>, f: spec_fn(T) -> bool, i: int)
    requires
        0 <= i < s.filter(f).len(),
    ensures
        exists|j: int| 0 <= j < s.len() && s[j] == s.filter(f)[i],
        f(s.filter(f)[i]),
    decreases s.len(),
{
    reveal_with_fuel(Seq::filter, 1);
    let t = s.drop_last();
    if i < t.filter(f).len() {
        lemma_filtered_from(t, f, i);
        let j = choose|j: int| 0 <= j < t.len() && t[j] == t.filter(f)[i];
        assert(s[j] == s.filter(f)[i]);
    } else {
        assert(s[s.len() - 1] == s.filter(f)[i]);
    }
}

/// What was there before and passes a filter is let through.
pub proof fn lemma_filter_contains<T>(s: Seq<T>, f: spec_fn(T) -> bool, x: T)
    requires
        s.contains(x),
        f(x),
    ensures
        s.filter(f).contains(x),
    decreases s.len(),
{
    reveal_with_fuel(Seq::filter, 1);
    let t = s.drop_last();
    if s.last() == x {
        assert(s.filter(f)[t.filter(f).len() as int] == x);
    } else {
        let i = choose|i: int| 0 <= i < s.len() && s[i] == x;
        assert(t[i] == x);
        lemma_filter_contains(t, f, x);
        let k = choose|k: int| 0 <= k < t.filter(f).len() && t.filter(f)[k] == x;
        assert(s.filter(f)[k] == x);
    }
}

/// To remove a key keeps the keys distinct.
pub proof fn lemma_without_distinct<K, V>(s: Seq<(K, V)>, k: K)
    requires
        distinct_keys(s),
    ensures
        distinct_keys(without(s, k)),
    decreases s.len(),
{
    reveal_with_fuel(Seq::filter, 2);
    let f = |e: (K, V)| e.0 != k;
    if s.len() > 0 {
        let t = s.drop_last();
        lemma_without_distinct(t, k);
        if f(s.last()) {
            assert(without(s, k) =~= without(t, k).push(s.last()));
            assert forall|i: int| 0 <= i < without(t, k).len() implies (#[trigger] without(t, k)[i]).0 != s.last().0 by {
                lemma_filtered_from(t, f, i);
                let j = choose|j: int| 0 <= j < t.len() && t[j] == without(t, k)[i];
                assert(s[j] == t[j]);
            }
        }
    }
}

/// A table from keys to values.
#[derive(Debug)]
pub struct Table<K, V> {
    pub entries: Vec<(K, V)>,
}

impl<K, V> View for Table<K, V> {
    type V = Seq<(K, V)>;

    open spec fn view(&self) -> Seq<(K, V)> {
        self.entries@
    }
}

impl<K: Key, V> Table<K, V> {
    pub fn new() -> (r: Self)
        ensures
            r@ == Seq::<(K, V)>::empty(),
    {
        Table { entries: Vec::new() }
    }

    fn find(&self, k: K) -> (r: usize)
        ensures
            r == position(self@, k),
            r <= self@.len(),
    {
        let mut i: usize = 0;
        while i < self.entries.len()
            invariant
                0 <= i <= self.entries@.len(),
                forall|j: int| 0 <= j < i ==> (#[trigger] self.entries@[j]).0 != k,
            decreases self.entries@.len() - i,
        {
            if self.entries[i].0.same(&k) {
                proof {
                    lemma_position_is(self@, k, i as int);
                }
                return i;
            }
            i += 1;
        }
        proof {
            lemma_position_is(self@, k, i as int);
        }
        i
    }

    /// What stands under `k`.
    pub fn get(&self, k: K) -> (r: Option<&V>)
        ensures
            match r {
                Some(v) => lookup(self@, k) == Some(*v),
                None => lookup(self@, k) is None,
            },
    {
        let i: usize = self.find(k);
        if i < self.entries.len() {
            Some(&self.entries[i].1)
        } else {
            None
        }
    }

    /// Write access to what stands under `k`.
    pub fn get_mut(&mut self, k: K) -> (r: Option<&mut V>)
        ensures
            match r {
                Some(v) => {
                    &&& lookup(old(self)@, k) == Some(*v)
                    &&& final(self)@ == put(old(self)@, k, *final(v))
                },
                None => lookup(old(self)@, k) is None && final(self)@ == old(self)@,
            },
    {
        let i: usize = self.find(k);
        proof {
            lemma_position(self@, k);
        }
        if i < self.entries.len() {
            Some(&mut self.entries[i].1)
        } else {
            None
        }
    }

    pub fn contains_key(&self, k: K) -> (r: bool)
        ensures
            r == lookup(self@, k) is Some,
    {
        self.find(k) < self.entries.len()
    }

    /// Puts `v` under `k`.
    pub fn insert(&mut self, k: K, v: V)
        ensures
            final(self)@ == put(old(self)@, k, v),
    {
        let i: usize = self.find(k);
        if i < self.entries.len() {
            self.entries[i] = (k, v);
        } else {
            self.entries.push((k, v));
        }
    }

    /// Removes `k`.
    pub fn remove(&mut self, k: K)
        ensures
            final(self)@ == without(old(self)@, k),
    {
        let ghost f = |e: (K, V)| e.0 != k;
        let ghost all = self@;
        let mut i: usize = 0;
        let ghost mut seen: int = 0;
        proof {
            assert(all.take(0).filter(f) =~= Seq::empty()) by {
                reveal_with_fuel(Seq::filter, 1);
            }
        }
        while i < self.entries.len()
            invariant
                0 <= i <= self.entries@.len(),
                0 <= seen <= all.len(),
                f == (|e: (K, V)| e.0 != k),
                self.entries@.take(i as int) =~= all.take(seen).filter(f),
                self.entries@.skip(i as int) =~= all.skip(seen),
            decreases self.entries@.len() - i,
        {
            let ghost before = self.entries@;
            proof {
                assert(self.entries@.skip(i as int).len() == all.skip(seen).len());
                assert(self.entries@.skip(i as int)[0] == all.skip(seen)[0]);
                assert(all.take(seen + 1).drop_last() =~= all.take(seen));
                reveal_with_fuel(Seq::filter, 1);
            }
            if self.entries[i].0.same(&k) {
                self.entries.remove(i);
                proof {
                    assert(self.entries@.take(i as int) =~= before.take(i as int));
                    assert(self.entries@.skip(i as int) =~= before.skip(i as int).skip(1));
                    assert(all.skip(seen + 1) =~= all.skip(seen).skip(1));
                }
            } else {
                i += 1;
                proof {
                    assert(self.entries@.take(i as int) =~= before.take(i - 1).push(before[i - 1]));
                    assert(self.entries@.skip(i as int) =~= before.skip(i - 1).skip(1));
                    assert(all.skip(seen + 1) =~= all.skip(seen).skip(1));
                }
            }
            proof {
                seen = seen + 1;
            }
        }
        proof {
            assert(all.skip(seen).len() == 0);
            assert(all.take(seen) =~= all);
            assert(self.entries@.take(i as int) =~= self.entries@);
        }
    }
}

/// A set.
#[derive(Debug)]
pub struct IdSet<K> {
    pub items: Vec<K>,
}

impl<K> View for IdSet<K> {
    type V = Seq<K>;

    open spec fn view(&self) -> Seq<K> {
        self.items@
    }
}

impl<K: Key> IdSet<K> {
    pub fn new() -> (r: Self)
        ensures
            r@ == Seq::<K>::empty(),
    {
        IdSet { items: Vec::new() }
    }

    pub fn contains(&self, k: K) -> (r: bool)
        ensures
            r == self@.contains(k),
    {
        let mut i: usize = 0;
        while i < self.items.len()
            invariant
                0 <= i <= self.items@.len(),
                forall|j: int| 0 <= j < i ==> #[trigger] self.items@[j] != k,
            decreases self.items@.len() - i,
        {
            if self.items[i].same(&k) {
                assert(self@[i as int] == k);
                return true;
            }
            i += 1;
        }
        false
    }

    pub fn insert(&mut self, k: K)
        ensures
            final(self)@ == with_item(old(self)@, k),
    {
        if !self.contains(k) {
            self.items.push(k);
        }
    }

    pub fn remove(&mut self, k: K)
        ensures
            final(self)@ == without_item(old(self)@, k),
    {
        let ghost f = |e: K| e != k;
        let ghost all = self@;
        let mut kept: Vec<K> = Vec::new();
        let mut i: usize = 0;
        proof {
            assert(all.take(0).filter(f) =~= Seq::empty()) by {
                reveal_with_fuel(Seq::filter, 1);
            }
        }
        while i < self.items.len()
            invariant
                self.items@ == all,
                0 <= i <= all.len(),
                f == (|e: K| e != k),
                kept@ =~= all.take(i as int).filter(f),
            decreases all.len() - i,
        {
            let item = self.items[i];
            proof {
                assert(all.take(i + 1).drop_last() =~= all.take(i as int));
                reveal_with_fuel(Seq::filter, 1);
            }
            if !item.same(&k) {
                kept.push(item);
            }
            i += 1;
        }
        proof {
            assert(all.take(i as int) =~= all);
        }
        self.items = kept;
    }

    pub fn clear(&mut self)
        ensures
            final(self)@ == Seq::<K>::empty(),
    {
        self.items.clear();
    }
}

/// A set holds an item that was put in, and what it held before.
pub proof fn lemma_with_item<K>(s: Seq<K>, k: K, other: K)
    ensures
        with_item(s, k).contains(other) <==> (s.contains(other) || other == k),
{
    if !s.contains(k) {
        let t = s.push(k);
        assert(t[s.len() as int] == k);
        if s.contains(other) {
            let i = choose|i: int| 0 <= i < s.len() && s[i] == other;
            assert(t[i] == other);
        }
    }
}

/// A set does not hold an item that was taken out, and holds every other as before.
pub proof fn lemma_without_item<K>(s: Seq<K>, k: K, other: K)
    ensures
        without_item(s, k).contains(other) <==> (s.contains(other) && other != k),
    decreases s.len(),
{
    reveal_with_fuel(Seq::filter, 1);
    let f = |e: K| e != k;
    if s.len() > 0 {
        let t = s.drop_last();
        lemma_without_item(t, k, other);
        assert(s.contains(other) <==> (t.contains(other) || s.last() == other)) by {
            if t.contains(other) {
                let i = choose|i: int| 0 <= i < t.len() && t[i] == other;
                assert(s[i] == other);
            }
            if s.contains(other) && s.last() != other {
                let i = choose|i: int| 0 <= i < s.len() && s[i] == other;
                assert(t[i] == other);
            }
        }
        if f(s.last()) {
            let u = without_item(t, k);
            assert(without_item(s, k) =~= u.push(s.last()));
            assert(u.push(s.last())[u.len() as int] == s.last());
            if u.contains(other) {
                let i = choose|i: int| 0 <= i < u.len() && u[i] == other;
                assert(u.push(s.last())[i] == other);
            }
        }
    }
}

} // verus!
