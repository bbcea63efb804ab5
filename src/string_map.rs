//! A small map from text keys to values, kept as a list of entries in
//! insertion order; the first entry with a key is the one that counts.
use vstd::prelude::*;

verus! {

/// The value stored under `k` in a list of entries: that of the first entry
/// with this key.
pub open spec fn lookup<V>(s: Seq<(Seq<char>, V)>, k: Seq<char>) -> Option<V>
    decreases s.len(),
{
    if s.len() == 0 {
        None
    } else if s[0].0 == k {
        Some(s[0].1)
    } else {
        lookup(s.drop_first(), k)
    }
}

/// A map from `String` keys to values.
#[derive(Debug, Clone)]
pub struct StringMap<V> {
    entries: Vec<(String, V)>,
}

proof fn lemma_lookup_skip<V>(s: Seq<(Seq<char>, V)>, i: int, k: Seq<char>)
    requires
        0 <= i < s.len(),
        s[i].0 != k,
    ensures
        lookup(s.subrange(i, s.len() as int), k) == lookup(s.subrange(i + 1, s.len() as int), k),
{
    assert(s.subrange(i, s.len() as int).drop_first() =~= s.subrange(i + 1, s.len() as int));
}

proof fn lemma_lookup_update<V>(s: Seq<(Seq<char>, V)>, i: int, k: Seq<char>, v: V, k2: Seq<char>)
    requires
        0 <= i < s.len(),
        s[i].0 == k,
        forall|j: int| 0 <= j < i ==> s[j].0 != k,
    ensures
        lookup(s.update(i, (k, v)), k2) == (if k2 == k { Some(v) } else { lookup(s, k2) }),
    decreases i,
{
    let u = s.update(i, (k, v));
    if i == 0 {
        assert(u.drop_first() =~= s.drop_first());
    } else {
        assert(u.drop_first() =~= s.drop_first().update(i - 1, (k, v)));
        if s[0].0 != k2 {
            lemma_lookup_update(s.drop_first(), i - 1, k, v, k2);
        }
    }
}

proof fn lemma_lookup_push<V>(s: Seq<(Seq<char>, V)>, k: Seq<char>, v: V, k2: Seq<char>)
    requires
        forall|j: int| 0 <= j < s.len() ==> s[j].0 != k,
    ensures
        lookup(s.push((k, v)), k2) == (if k2 == k { Some(v) } else { lookup(s, k2) }),
    decreases s.len(),
{
    if s.len() > 0 {
        assert(s.push((k, v)).drop_first() =~= s.drop_first().push((k, v)));
        lemma_lookup_push(s.drop_first(), k, v, k2);
    } else {
        assert(s.push((k, v)).drop_first() =~= s);
    }
}

proof fn lemma_lookup_skip_run<V>(s: Seq<(Seq<char>, V)>, j: int, stop: int, k: Seq<char>)
    requires
        0 <= j <= stop <= s.len(),
        forall|m: int| j <= m < stop ==> s[m].0 != k,
    ensures
        lookup(s.subrange(j, s.len() as int), k) == lookup(s.subrange(stop, s.len() as int), k),
    decreases stop - j,
{
    if j < stop {
        lemma_lookup_skip(s, j, k);
        lemma_lookup_skip_run(s, j + 1, stop, k);
    }
}

impl<V: Copy> StringMap<V> {
    /// The entries, keys as text.
    pub closed spec fn view(&self) -> Seq<(Seq<char>, V)> {
        self.entries@.map_values(|e: (String, V)| (e.0@, e.1))
    }

    /// An empty map.
    pub fn new() -> (r: Self)
        ensures
            r.view().len() == 0,
    {
        StringMap { entries: Vec::new() }
    }

    /// A copy with the same entries.
    pub fn duplicate(&self) -> (r: Self)
        ensures
            r.view() == self.view(),
    {
        let mut entries: Vec<(String, V)> = Vec::new();
        let mut i: usize = 0;
        while i < self.entries.len()
            invariant
                i <= self.entries@.len(),
                entries@.len() == i,
                forall|j: int| 0 <= j < i ==> (#[trigger] entries@[j]).0@ == self.entries@[j].0@
                    && entries@[j].1 == self.entries@[j].1,
            decreases self.entries.len() - i,
        {
            entries.push((self.entries[i].0.clone(), self.entries[i].1));
            i = i + 1;
        }
        let r = StringMap { entries };
        assert(r.view() =~= self.view());
        r
    }

    /// How many entries the map holds.
    pub fn len(&self) -> (r: usize)
        ensures
            r == self.view().len(),
    {
        self.entries.len()
    }

    /// The key of the entry at `i`.
    pub fn key_at(&self, i: usize) -> (r: &String)
        requires
            i < self.view().len(),
        ensures
            r@ == self.view()[i as int].0,
    {
        &self.entries[i].0
    }

    /// The value of the entry at `i`.
    pub fn value_at(&self, i: usize) -> (r: V)
        requires
            i < self.view().len(),
        ensures
            r == self.view()[i as int].1,
    {
        self.entries[i].1
    }

    /// Where the first entry with key `key` stands, if any.
    fn position(&self, key: &String) -> (r: Option<usize>)
        ensures
            match r {
                Some(i) => i < self.view().len() && self.view()[i as int].0 == key@
                    && forall|j: int| 0 <= j < i ==> self.view()[j].0 != key@,
                None => forall|j: int| 0 <= j < self.view().len() ==> self.view()[j].0 != key@,
            },
    {
        let mut i: usize = 0;
        while i < self.entries.len()
            invariant
                i <= self.view().len(),
                self.view().len() == self.entries@.len(),
                forall|j: int| 0 <= j < i ==> self.view()[j].0 != key@,
            decreases self.entries.len() - i,
        {
            if self.entries[i].0 == *key {
                return Some(i);
            }
            i = i + 1;
        }
        None
    }

    /// The value stored under `key`.
    pub fn get(&self, key: &String) -> (r: Option<V>)
        ensures
            r == lookup(self.view(), key@),
    {
        let p = self.position(key);
        let ghost s = self.view();
        let ghost n = s.len() as int;
        proof {
            let stop = match p {
                Some(i) => i as int,
                None => n,
            };
            assert(s.subrange(0, n) =~= s);
            lemma_lookup_skip_run(s, 0, stop, key@);
            if stop == n {
                assert(s.subrange(n, n).len() == 0);
            } else {
                assert(s.subrange(stop, n)[0] == s[stop]);
            }
        }
        match p {
            Some(i) => Some(self.entries[i].1),
            None => None,
        }
    }

    /// Stores `value` under `key`, in place of what the key held before.
    pub fn insert(&mut self, key: String, value: V)
        ensures
            forall|k: Seq<char>|
                #[trigger] lookup(final(self).view(), k) == (if k == key@ {
                    Some(value)
                } else {
                    lookup(old(self).view(), k)
                }),
    {
        let ghost k = key@;
        let ghost s = self.view();
        match self.position(&key) {
            Some(i) => {
                self.entries.set(i, (key, value));
                assert(self.view() =~= s.update(i as int, (k, value)));
                assert forall|k2: Seq<char>| #[trigger]
                    lookup(self.view(), k2) == (if k2 == k { Some(value) } else { lookup(s, k2) }) by {
                    lemma_lookup_update(s, i as int, k, value, k2);
                }
            },
            None => {
                self.entries.push((key, value));
                assert(self.view() =~= s.push((k, value)));
                assert forall|k2: Seq<char>| #[trigger]
                    lookup(self.view(), k2) == (if k2 == k { Some(value) } else { lookup(s, k2) }) by {
                    lemma_lookup_push(s, k, value, k2);
                }
            },
        }
    }
}

} // verus!
