use vstd::prelude::*;

verus! {

/// The result of a point lookup in a key/value mapping.
pub open spec fn lookup(m: Map<Seq<u8>, Seq<u8>>, k: Seq<u8>) -> Option<Seq<u8>> {
    if m.contains_key(k) {
        Some(m[k])
    } else {
        None
    }
}

/// The mapping that a sequence of entries describes, read in order: a later
/// entry for a key replaces an earlier one.
pub open spec fn entries_map(s: Seq<(Seq<u8>, Seq<u8>)>) -> Map<Seq<u8>, Seq<u8>>
    decreases s.len(),
{
    if s.len() == 0 {
        Map::empty()
    } else {
        entries_map(s.drop_last()).insert(s.last().0, s.last().1)
    }
}

/// The entries of a witness payload as byte sequences.
pub open spec fn entries_view(e: Seq<(Vec<u8>, Vec<u8>)>) -> Seq<(Seq<u8>, Seq<u8>)> {
    e.map_values(|p: (Vec<u8>, Vec<u8>)| (p.0@, p.1@))
}

/// An optional owned value as an optional byte sequence.
pub open spec fn value_view(r: Option<Vec<u8>>) -> Option<Seq<u8>> {
    match r {
        Some(v) => Some(v@),
        None => None,
    }
}

/// The bytes of `v` that a read of at most `max_len` bytes from `offset`
/// hands out; an offset past the end reads nothing.
pub open spec fn read_window(v: Seq<u8>, offset: int, max_len: int) -> Seq<u8> {
    if offset <= v.len() {
        let n = if max_len < v.len() - offset { max_len } else { v.len() - offset };
        v.subrange(offset, offset + n)
    } else {
        Seq::empty()
    }
}

/// Copies `src[from..to]` into a fresh vector.
pub fn copy_range(src: &[u8], from: usize, to: usize) -> (r: Vec<u8>)
    requires
        from <= to <= src@.len(),
    ensures
        r@ == src@.subrange(from as int, to as int),
{
    let mut r: Vec<u8> = Vec::new();
    let mut i: usize = from;
    while i < to
        invariant
            from <= i <= to <= src@.len(),
            r@ == src@.subrange(from as int, i as int),
        decreases to - i,
    {
        r.push(src[i]);
        i = i + 1;
        assert(r@ =~= src@.subrange(from as int, i as int));
    }
    r
}

/// Byte-wise equality of two byte strings.
pub fn bytes_eq(a: &[u8], b: &[u8]) -> (r: bool)
    ensures
        r == (a@ == b@),
{
    if a.len() != b.len() {
        return false;
    }
    let mut i: usize = 0;
    while i < a.len()
        invariant
            a@.len() == b@.len(),
            i <= a@.len(),
            forall|j: int| 0 <= j < i ==> a@[j] == b@[j],
        decreases a@.len() - i,
    {
        if a[i] != b[i] {
            return false;
        }
        i = i + 1;
    }
    assert(a@ =~= b@);
    true
}

/// The witness: the state entries that one block's execution touches, held as
/// a key/value table. Keys are unique among the entries.
pub struct WitnessStore {
    entries: Vec<(Vec<u8>, Vec<u8>)>,
    contents: Ghost<Map<Seq<u8>, Seq<u8>>>,
}

impl View for WitnessStore {
    type V = Map<Seq<u8>, Seq<u8>>;

    closed spec fn view(&self) -> Map<Seq<u8>, Seq<u8>> {
        self.contents@
    }
}

impl WitnessStore {
    /// The entries hold each key once, and they are exactly the contents.
    pub closed spec fn wf(&self) -> bool {
        &&& forall|i: int, j: int|
            0 <= i < j < self.entries@.len() ==> #[trigger] self.entries@[i].0@
                != #[trigger] self.entries@[j].0@
        &&& forall|i: int|
            0 <= i < self.entries@.len() ==> self.contents@.contains_key(
                #[trigger] self.entries@[i].0@,
            ) && self.contents@[self.entries@[i].0@] == self.entries@[i].1@
        &&& forall|k: Seq<u8>|
            #[trigger] self.contents@.contains_key(k) ==> exists|i: int|
                0 <= i < self.entries@.len() && #[trigger] self.entries@[i].0@ == k
    }

    /// An empty store.
    pub fn new() -> (s: WitnessStore)
        ensures
            s.wf(),
            s@ == Map::<Seq<u8>, Seq<u8>>::empty(),
    {
        WitnessStore { entries: Vec::new(), contents: Ghost(Map::empty()) }
    }

    /// The index of the entry for `key`, if there is one.
    fn find(&self, key: &[u8]) -> (r: Option<usize>)
        requires
            self.wf(),
        ensures
            match r {
                Some(i) => i < self.entries@.len() && self.entries@[i as int].0@ == key@,
                None => !self@.contains_key(key@),
            },
    {
        let mut i: usize = 0;
        while i < self.entries.len()
            invariant
                self.wf(),
                i <= self.entries@.len(),
                forall|j: int| 0 <= j < i ==> #[trigger] self.entries@[j].0@ != key@,
            decreases self.entries@.len() - i,
        {
            if bytes_eq(self.entries[i].0.as_slice(), key) {
                return Some(i);
            }
            i = i + 1;
        }
        None
    }

    /// Exact-match lookup: a copy of the value stored under `key`, or `None`.
    pub fn get(&self, key: &[u8]) -> (r: Option<Vec<u8>>)
        requires
            self.wf(),
        ensures
            value_view(r) == lookup(self@, key@),
    {
        match self.find(key) {
            Some(i) => {
                let v = self.entries[i].1.as_slice();
                Some(copy_range(v, 0, v.len()))
            },
            None => None,
        }
    }

    /// Stores `value` under `key`, replacing an entry for the same key.
    pub fn set(&mut self, key: &[u8], value: &[u8])
        requires
            old(self).wf(),
        ensures
            final(self).wf(),
            final(self)@ == old(self)@.insert(key@, value@),
    {
        let ghost old_entries = self.entries@;
        let ghost old_contents = self.contents@;
        let k = copy_range(key, 0, key.len());
        let v = copy_range(value, 0, value.len());
        let found = self.find(key);
        match found {
            Some(i) => {
                self.entries.set(i, (k, v));
            },
            None => {
                self.entries.push((k, v));
            },
        }
        self.contents = Ghost(old_contents.insert(key@, value@));
        proof {
            let n = old_entries.len();
            let idx: int = match found {
                Some(i) => i as int,
                None => n as int,
            };
            assert(self.entries@[idx].0@ == key@);
            assert forall|j: int| 0 <= j < self.entries@.len() && j != idx implies #[trigger] self.entries@[j]
                == old_entries[j] by {}
            if found is None {
                assert forall|j: int| 0 <= j < n implies #[trigger] old_entries[j].0@ != key@ by {
                    assert(old_contents.contains_key(old_entries[j].0@));
                }
            }
            assert forall|a: int, b: int|
                0 <= a < b < self.entries@.len() implies #[trigger] self.entries@[a].0@
                != #[trigger] self.entries@[b].0@ by {
                if a != idx && b != idx {
                    assert(self.entries@[a] == old_entries[a]);
                    assert(self.entries@[b] == old_entries[b]);
                } else if a == idx {
                    assert(self.entries@[b] == old_entries[b]);
                    if found is Some {
                        assert(old_entries[a].0@ == key@);
                    }
                } else {
                    assert(self.entries@[a] == old_entries[a]);
                    if found is Some {
                        assert(old_entries[b].0@ == key@);
                    }
                }
            }
            assert forall|j: int| 0 <= j < self.entries@.len() implies self.contents@.contains_key(
                #[trigger] self.entries@[j].0@,
            ) && self.contents@[self.entries@[j].0@] == self.entries@[j].1@ by {
                if j != idx {
                    assert(self.entries@[j] == old_entries[j]);
                    if found is Some {
                        assert(old_entries[idx].0@ == key@);
                    }
                }
            }
            assert forall|kk: Seq<u8>| #[trigger] self.contents@.contains_key(kk) implies exists|j: int|
                0 <= j < self.entries@.len() && #[trigger] self.entries@[j].0@ == kk by {
                if kk != key@ {
                    let j = choose|j: int| 0 <= j < old_entries.len() && #[trigger] old_entries[j].0@ == kk;
                    assert(self.entries@[j] == old_entries[j]);
                }
            }
        }
    }

    /// Copies at most `max_len` bytes of the value under `key`, starting at
    /// byte `offset`; an offset past the end of the value copies nothing.
    /// `None` where no entry has the key.
    pub fn get_into(&self, key: &[u8], offset: usize, max_len: usize) -> (r: Option<Vec<u8>>)
        requires
            self.wf(),
        ensures
            match lookup(self@, key@) {
                Some(v) => value_view(r) == Some(read_window(v, offset as int, max_len as int)),
                None => r is None,
            },
    {
        match self.find(key) {
            Some(i) => {
                let v = self.entries[i].1.as_slice();
                if offset <= v.len() {
                    let rest = v.len() - offset;
                    let n = if max_len < rest { max_len } else { rest };
                    Some(copy_range(v, offset, offset + n))
                } else {
                    Some(Vec::new())
                }
            },
            None => None,
        }
    }

    /// The store that a witness payload describes: its entries are stored in
    /// order, so a later entry for a key replaces an earlier one.
    pub fn from_entries(entries: Vec<(Vec<u8>, Vec<u8>)>) -> (s: WitnessStore)
        ensures
            s.wf(),
            s@ == entries_map(entries_view(entries@)),
    {
        let mut s = WitnessStore::new();
        let mut i: usize = 0;
        while i < entries.len()
            invariant
                i <= entries@.len(),
                s.wf(),
                s@ == entries_map(entries_view(entries@).subrange(0, i as int)),
            decreases entries@.len() - i,
        {
            s.set(entries[i].0.as_slice(), entries[i].1.as_slice());
            proof {
                let ev = entries_view(entries@);
                assert(ev.subrange(0, i + 1).drop_last() =~= ev.subrange(0, i as int));
            }
            i = i + 1;
        }
        assert(entries_view(entries@).subrange(0, entries@.len() as int) =~= entries_view(entries@));
        s
    }
}

/// A value stored under a key is what a lookup of that key then yields.
pub proof fn law_round_trip(m: Map<Seq<u8>, Seq<u8>>, k: Seq<u8>, v: Seq<u8>)
    ensures
        lookup(m.insert(k, v), k) == Some(v),
{
}

/// Of two values stored in turn under one key, a lookup yields the second.
pub proof fn law_overwrite(m: Map<Seq<u8>, Seq<u8>>, k: Seq<u8>, v1: Seq<u8>, v2: Seq<u8>)
    ensures
        lookup(m.insert(k, v1).insert(k, v2), k) == Some(v2),
{
}

/// A lookup of a key that holds no entry yields nothing.
pub proof fn law_absence(m: Map<Seq<u8>, Seq<u8>>, k: Seq<u8>)
    requires
        !m.contains_key(k),
    ensures
        lookup(m, k) is None,
{
}

/// A bounded read from `offset` of a value of length `L` hands out
/// `min(max_len, L - offset)` bytes of it when `offset <= L`, and nothing
/// when the offset lies past the end.
pub proof fn law_bounded_read(v: Seq<u8>, offset: int, max_len: int)
    requires
        0 <= offset,
        0 <= max_len,
    ensures
        offset <= v.len() ==> read_window(v, offset, max_len).len() == if max_len < v.len()
            - offset {
            max_len
        } else {
            v.len() - offset
        },
        offset <= v.len() ==> forall|i: int|
            0 <= i < read_window(v, offset, max_len).len() ==> #[trigger] read_window(
                v,
                offset,
                max_len,
            )[i] == v[offset + i],
        offset > v.len() ==> read_window(v, offset, max_len).len() == 0,
{
}

} // verus!
