use vstd::prelude::*;

verus! {

/// The key-value state store: append-only streams of entries (for oplogs) and
/// single values with compare-and-set (for status records).
pub struct KvStore {
    streams: Vec<(String, Vec<Vec<u8>>)>,
    values: Vec<(String, Vec<u8>)>,
}

/// The entries of the stream under `key`; empty for a stream never written.
pub open spec fn stream_in(streams: Seq<(Seq<char>, Seq<Seq<u8>>)>, key: Seq<char>) -> Seq<Seq<u8>>
    decreases streams.len(),
{
    if streams.len() == 0 {
        Seq::empty()
    } else if streams.last().0 == key {
        streams.last().1
    } else {
        stream_in(streams.drop_last(), key)
    }
}

/// The value under `key`, if any.
pub open spec fn value_in(values: Seq<(Seq<char>, Seq<u8>)>, key: Seq<char>) -> Option<Seq<u8>>
    decreases values.len(),
{
    if values.len() == 0 {
        None
    } else if values.last().0 == key {
        Some(values.last().1)
    } else {
        value_in(values.drop_last(), key)
    }
}

/// The entries of a stream from index `from` to index `to`, both included, counted
/// from 1; indexes outside the stream are left out.
pub open spec fn range_spec(entries: Seq<Seq<u8>>, from: nat, to: nat) -> Seq<Seq<u8>> {
    let lo = if from == 0 {
        0
    } else {
        (from - 1) as nat
    };
    let hi = if to < entries.len() {
        to
    } else {
        entries.len()
    };
    if lo < hi {
        entries.subrange(lo as int, hi as int)
    } else {
        Seq::empty()
    }
}

spec fn stream_views(s: Seq<(String, Vec<Vec<u8>>)>) -> Seq<(Seq<char>, Seq<Seq<u8>>)> {
    s.map_values(|p: (String, Vec<Vec<u8>>)| (p.0@, p.1@.map_values(|e: Vec<u8>| e@)))
}

spec fn value_views(s: Seq<(String, Vec<u8>)>) -> Seq<(Seq<char>, Seq<u8>)> {
    s.map_values(|p: (String, Vec<u8>)| (p.0@, p.1@))
}

proof fn lemma_stream_other(s: Seq<(Seq<char>, Seq<Seq<u8>>)>, i: int, key: Seq<char>, t: Seq<Seq<u8>>, k: Seq<char>)
    requires
        0 <= i < s.len(),
        s[i].0 == key,
        k != key,
    ensures
        stream_in(s.update(i, (key, t)), k) == stream_in(s, k),
    decreases s.len(),
{
    if s.len() > 0 {
        if i < s.len() - 1 {
            assert(s.update(i, (key, t)).drop_last() =~= s.drop_last().update(i, (key, t)));
            lemma_stream_other(s.drop_last(), i, key, t, k);
        } else {
            assert(s.update(i, (key, t)).drop_last() =~= s.drop_last());
        }
    }
}

proof fn lemma_value_other(s: Seq<(Seq<char>, Seq<u8>)>, i: int, key: Seq<char>, t: Seq<u8>, k: Seq<char>)
    requires
        0 <= i < s.len(),
        s[i].0 == key,
        k != key,
    ensures
        value_in(s.update(i, (key, t)), k) == value_in(s, k),
    decreases s.len(),
{
    if s.len() > 0 {
        if i < s.len() - 1 {
            assert(s.update(i, (key, t)).drop_last() =~= s.drop_last().update(i, (key, t)));
            lemma_value_other(s.drop_last(), i, key, t, k);
        } else {
            assert(s.update(i, (key, t)).drop_last() =~= s.drop_last());
        }
    }
}

proof fn lemma_value_same(s: Seq<(Seq<char>, Seq<u8>)>, i: int, key: Seq<char>, t: Seq<u8>)
    requires
        0 <= i < s.len(),
        s[i].0 == key,
        forall|j: int| i < j < s.len() ==> s[j].0 != key,
    ensures
        value_in(s.update(i, (key, t)), key) == Some(t),
        value_in(s, key) == Some(s[i].1),
    decreases s.len(),
{
    if i < s.len() - 1 {
        assert(s.update(i, (key, t)).drop_last() =~= s.drop_last().update(i, (key, t)));
        lemma_value_same(s.drop_last(), i, key, t);
    }
}

proof fn lemma_stream_same(s: Seq<(Seq<char>, Seq<Seq<u8>>)>, i: int, key: Seq<char>, t: Seq<Seq<u8>>)
    requires
        0 <= i < s.len(),
        s[i].0 == key,
        forall|j: int| i < j < s.len() ==> s[j].0 != key,
    ensures
        stream_in(s.update(i, (key, t)), key) == t,
        stream_in(s, key) == s[i].1,
    decreases s.len(),
{
    if i < s.len() - 1 {
        assert(s.update(i, (key, t)).drop_last() =~= s.drop_last().update(i, (key, t)));
        lemma_stream_same(s.drop_last(), i, key, t);
    }
}

proof fn lemma_stream_absent(s: Seq<(Seq<char>, Seq<Seq<u8>>)>, key: Seq<char>)
    requires
        forall|j: int| 0 <= j < s.len() ==> s[j].0 != key,
    ensures
        stream_in(s, key) == Seq::<Seq<u8>>::empty(),
    decreases s.len(),
{
    if s.len() > 0 {
        lemma_stream_absent(s.drop_last(), key);
    }
}

proof fn lemma_value_absent(s: Seq<(Seq<char>, Seq<u8>)>, key: Seq<char>)
    requires
        forall|j: int| 0 <= j < s.len() ==> s[j].0 != key,
    ensures
        value_in(s, key) is None,
    decreases s.len(),
{
    if s.len() > 0 {
        lemma_value_absent(s.drop_last(), key);
    }
}

fn copy_bytes(v: &Vec<u8>) -> (r: Vec<u8>)
    ensures
        r@ == v@,
{
    let mut out: Vec<u8> = Vec::new();
    let mut i: usize = 0;
    while i < v.len()
        invariant
            i <= v@.len(),
            out@ == v@.subrange(0, i as int),
        decreases v.len() - i,
    {
        out.push(v[i]);
        assert(out@ =~= v@.subrange(0, i as int + 1));
        i = i + 1;
    }
    assert(v@.subrange(0, i as int) =~= v@);
    out
}

fn same_bytes(a: &Vec<u8>, b: &Vec<u8>) -> (r: bool)
    ensures
        r == (a@ == b@),
{
    if a.len() != b.len() {
        return false;
    }
    let mut i: usize = 0;
    while i < a.len()
        invariant
            i <= a.len(),
            a.len() == b.len(),
            forall|j: int| 0 <= j < i ==> a@[j] == b@[j],
        decreases a.len() - i,
    {
        if a[i] != b[i] {
            return false;
        }
        i = i + 1;
    }
    assert(a@ =~= b@);
    true
}

impl KvStore {
    pub closed spec fn streams_spec(&self) -> Seq<(Seq<char>, Seq<Seq<u8>>)> {
        stream_views(self.streams@)
    }

    pub closed spec fn values_spec(&self) -> Seq<(Seq<char>, Seq<u8>)> {
        value_views(self.values@)
    }

    /// The entries of the stream under `key`.
    pub open spec fn stream(&self, key: Seq<char>) -> Seq<Seq<u8>> {
        stream_in(self.streams_spec(), key)
    }

    /// The value under `key`.
    pub open spec fn value(&self, key: Seq<char>) -> Option<Seq<u8>> {
        value_in(self.values_spec(), key)
    }

    /// An empty store.
    pub fn new() -> (r: KvStore)
        ensures
            forall|k: Seq<char>| #[trigger] r.stream(k) == Seq::<Seq<u8>>::empty(),
            forall|k: Seq<char>| #[trigger] r.value(k) is None,
    {
        let r = KvStore { streams: Vec::new(), values: Vec::new() };
        assert(r.streams_spec() =~= Seq::<(Seq<char>, Seq<Seq<u8>>)>::empty());
        assert(r.values_spec() =~= Seq::<(Seq<char>, Seq<u8>)>::empty());
        r
    }

    /// Appends an entry to the stream under `key` and returns its index, counted
    /// from 1. Nothing else changes.
    pub fn ordered_append(&mut self, key: &str, entry: Vec<u8>) -> (r: u64)
        requires
            old(self).stream(key@).len() < u64::MAX,
        ensures
            final(self).stream(key@) == old(self).stream(key@).push(entry@),
            forall|k: Seq<char>| k != key@ ==> #[trigger] final(self).stream(k) == old(self).stream(k),
            forall|k: Seq<char>| #[trigger] final(self).value(k) == old(self).value(k),
            r == final(self).stream(key@).len(),
    {
        let k = String::from_str(key);
        let ghost before = self.streams_spec();
        let ghost e = entry@;
        match self.stream_position(&k) {
            None => {
                proof {
                    lemma_stream_absent(before, key@);
                }
                let mut entries: Vec<Vec<u8>> = Vec::new();
                entries.push(entry);
                assert(entries@.map_values(|x: Vec<u8>| x@) =~= seq![e]);
                self.streams.push((k, entries));
                proof {
                    assert(self.streams_spec() =~= before.push((key@, seq![e])));
                    assert(self.streams_spec().drop_last() =~= before);
                    assert(seq![e] =~= Seq::<Seq<u8>>::empty().push(e));
                }
                1
            },
            Some(i) => {
                proof {
                    lemma_stream_same(before, i as int, key@, before[i as int].1.push(e));
                }
                let ghost raw = self.streams@;
                let (name, mut entries) = self.streams.remove(i);
                assert(entries@.map_values(|x: Vec<u8>| x@) == before[i as int].1);
                entries.push(entry);
                assert(entries@.map_values(|x: Vec<u8>| x@) =~= before[i as int].1.push(e));
                let n = entries.len();
                self.streams.insert(i, (name, entries));
                assert(self.streams@ =~= raw.update(i as int, (name, entries)));
                proof {
                    assert(self.streams_spec() =~= before.update(
                        i as int,
                        (key@, before[i as int].1.push(e)),
                    ));
                    assert forall|k2: Seq<char>| k2 != key@ implies #[trigger] stream_in(
                        self.streams_spec(),
                        k2,
                    ) == stream_in(before, k2) by {
                        lemma_stream_other(before, i as int, key@, before[i as int].1.push(e), k2);
                    }
                }
                n as u64
            },
        }
    }

    /// The entries of the stream under `key` from index `from` to index `to`, both
    /// included, counted from 1.
    pub fn range(&self, key: &str, from: u64, to: u64) -> (r: Vec<Vec<u8>>)
        ensures
            r@.map_values(|e: Vec<u8>| e@) == range_spec(self.stream(key@), from as nat, to as nat),
    {
        let k = String::from_str(key);
        let mut out: Vec<Vec<u8>> = Vec::new();
        match self.stream_position(&k) {
            None => {
                proof {
                    lemma_stream_absent(self.streams_spec(), key@);
                }
                assert(out@.map_values(|e: Vec<u8>| e@) =~= range_spec(
                    self.stream(key@),
                    from as nat,
                    to as nat,
                ));
                out
            },
            Some(p) => {
                proof {
                    lemma_stream_same(self.streams_spec(), p as int, key@, self.streams_spec()[p as int].1);
                }
                let entries = &self.streams[p].1;
                let ghost all = self.stream(key@);
                assert(all == entries@.map_values(|e: Vec<u8>| e@));
                let lo: usize = if from == 0 {
                    0
                } else if (from - 1) as u128 >= entries.len() as u128 {
                    entries.len()
                } else {
                    (from - 1) as usize
                };
                let hi: usize = if (to as u128) < (entries.len() as u128) {
                    to as usize
                } else {
                    entries.len()
                };
                if lo >= hi {
                    assert(out@.map_values(|e: Vec<u8>| e@) =~= range_spec(all, from as nat, to as nat));
                    return out;
                }
                let mut i: usize = lo;
                while i < hi
                    invariant
                        lo <= i <= hi,
                        hi <= entries@.len(),
                        all == entries@.map_values(|e: Vec<u8>| e@),
                        out@.map_values(|e: Vec<u8>| e@) =~= all.subrange(lo as int, i as int),
                    decreases hi - i,
                {
                    let c = copy_bytes(&entries[i]);
                    let ghost before = out@;
                    out.push(c);
                    proof {
                        assert(out@.map_values(|e: Vec<u8>| e@) =~= before.map_values(|e: Vec<u8>| e@).push(c@));
                    }
                    i = i + 1;
                }
                assert(out@.map_values(|e: Vec<u8>| e@) =~= range_spec(all, from as nat, to as nat));
                out
            },
        }
    }

    /// The value under `key`.
    pub fn get(&self, key: &str) -> (r: Option<&Vec<u8>>)
        ensures
            r is None <==> self.value(key@) is None,
            r matches Some(v) ==> self.value(key@) == Some(v@),
    {
        let k = String::from_str(key);
        match self.value_position(&k) {
            None => {
                proof {
                    lemma_value_absent(self.values_spec(), key@);
                }
                None
            },
            Some(i) => {
                proof {
                    lemma_value_same(self.values_spec(), i as int, key@, self.values_spec()[i as int].1);
                }
                Some(&self.values[i].1)
            },
        }
    }

    /// Sets the value under `key`. Nothing else changes.
    pub fn put(&mut self, key: &str, value: Vec<u8>)
        ensures
            final(self).value(key@) == Some(value@),
            forall|k: Seq<char>| k != key@ ==> #[trigger] final(self).value(k) == old(self).value(k),
            forall|k: Seq<char>| #[trigger] final(self).stream(k) == old(self).stream(k),
    {
        let k = String::from_str(key);
        let ghost before = self.values_spec();
        let ghost v = value@;
        match self.value_position(&k) {
            None => {
                self.values.push((k, value));
                proof {
                    assert(self.values_spec() =~= before.push((key@, v)));
                    assert(self.values_spec().drop_last() =~= before);
                }
            },
            Some(i) => {
                proof {
                    lemma_value_same(before, i as int, key@, v);
                }
                self.values.set(i, (k, value));
                proof {
                    assert(self.values_spec() =~= before.update(i as int, (key@, v)));
                    assert forall|k2: Seq<char>| k2 != key@ implies #[trigger] value_in(
                        self.values_spec(),
                        k2,
                    ) == value_in(before, k2) by {
                        lemma_value_other(before, i as int, key@, v, k2);
                    }
                }
            },
        }
    }

    /// Sets the value under `key` to `new` only if it currently is `expected`
    /// (`None`: no value); says whether it did.
    pub fn cas(&mut self, key: &str, expected: Option<&Vec<u8>>, new: Vec<u8>) -> (r: bool)
        ensures
            r == (old(self).value(key@) == match expected {
                None => None,
                Some(e) => Some(e@),
            }),
            r ==> final(self).value(key@) == Some(new@),
            r ==> forall|k: Seq<char>| k != key@ ==> #[trigger] final(self).value(k) == old(self).value(k),
            !r ==> forall|k: Seq<char>| #[trigger] final(self).value(k) == old(self).value(k),
            forall|k: Seq<char>| #[trigger] final(self).stream(k) == old(self).stream(k),
    {
        let matches_expected = match (self.get(key), expected) {
            (None, None) => true,
            (Some(cur), Some(e)) => same_bytes(cur, e),
            _ => false,
        };
        if matches_expected {
            self.put(key, new);
        }
        matches_expected
    }

    fn stream_position(&self, key: &String) -> (r: Option<usize>)
        ensures
            r is None ==> forall|j: int|
                0 <= j < self.streams_spec().len() ==> self.streams_spec()[j].0 != key@,
            r matches Some(i) ==> i < self.streams_spec().len() && self.streams_spec()[i as int].0
                == key@ && forall|j: int|
                i < j < self.streams_spec().len() ==> self.streams_spec()[j].0 != key@,
    {
        let mut i: usize = self.streams.len();
        while i > 0
            invariant
                i <= self.streams@.len(),
                forall|j: int| i <= j < self.streams_spec().len() ==> self.streams_spec()[j].0 != key@,
            decreases i,
        {
            i = i - 1;
            if self.streams[i].0 == *key {
                return Some(i);
            }
        }
        None
    }

    fn value_position(&self, key: &String) -> (r: Option<usize>)
        ensures
            r is None ==> forall|j: int|
                0 <= j < self.values_spec().len() ==> self.values_spec()[j].0 != key@,
            r matches Some(i) ==> i < self.values_spec().len() && self.values_spec()[i as int].0
                == key@ && forall|j: int|
                i < j < self.values_spec().len() ==> self.values_spec()[j].0 != key@,
    {
        let mut i: usize = self.values.len();
        while i > 0
            invariant
                i <= self.values@.len(),
                forall|j: int| i <= j < self.values_spec().len() ==> self.values_spec()[j].0 != key@,
            decreases i,
        {
            i = i - 1;
            if self.values[i].0 == *key {
                return Some(i);
            }
        }
        None
    }
}

} // verus!
