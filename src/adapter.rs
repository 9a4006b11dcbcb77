use vstd::prelude::*;
use crate::witness::{lookup, read_window, value_view, WitnessStore};

verus! {

/// The three storage primitives (allocated read, bounded read into a
/// buffer, write), served from the witness store bound to the adapter.
/// Reads hand out real entries or the not-found signal, nothing else.
pub struct StorageAdapter {
    store: Option<WitnessStore>,
}

/// The length reported by a read that finds no entry.
pub const NOT_FOUND: u32 = 0xffff_ffff;

impl StorageAdapter {
    /// The contents of the bound store, if a store is bound.
    pub closed spec fn bound(&self) -> Option<Map<Seq<u8>, Seq<u8>>> {
        match self.store {
            Some(s) => Some(s@),
            None => None,
        }
    }

    pub closed spec fn wf(&self) -> bool {
        match self.store {
            Some(s) => s.wf(),
            None => true,
        }
    }

    /// An adapter with no store bound.
    pub fn unbound() -> (a: StorageAdapter)
        ensures
            a.wf(),
            a.bound() is None,
    {
        StorageAdapter { store: None }
    }

    pub fn is_bound(&self) -> (r: bool)
        ensures
            r == self.bound() is Some,
            !r ==> self.wf(),
    {
        self.store.is_some()
    }

    /// Binds `store`; the adapter then serves it and it alone.
    pub fn bind(&mut self, store: WitnessStore)
        requires
            store.wf(),
        ensures
            final(self).wf(),
            final(self).bound() == Some(store@),
    {
        self.store = Some(store);
    }

    /// Drops the bound store: nothing of it can be read afterwards.
    pub fn unbind(&mut self)
        ensures
            final(self).wf(),
            final(self).bound() is None,
    {
        self.store = None;
    }


    /// The full value under `key` with its length, or no value and
    /// `NOT_FOUND` where the bound store has no entry for the key.
    pub fn ext_get_allocated_storage(&self, key: &[u8]) -> (r: (Option<Vec<u8>>, u32))
        requires
            self.wf(),
            self.bound() is Some,
        ensures
            match lookup(self.bound().unwrap(), key@) {
                Some(v) => value_view(r.0) == Some(v) && r.1 == v.len() as u32,
                None => r.0 is None && r.1 == NOT_FOUND,
            },
    {
        let store = self.store.as_ref().unwrap();
        match store.get(key) {
            Some(v) => {
                let n = v.len() as u32;
                (Some(v), n)
            },
            None => (None, NOT_FOUND),
        }
    }

    /// Stores `value` under `key` in the bound store. Without a bound store
    /// there is nothing to write into, and the write is dropped.
    pub fn ext_set_storage(&mut self, key: &[u8], value: &[u8])
        requires
            old(self).wf(),
        ensures
            final(self).wf(),
            final(self).bound() == match old(self).bound() {
                Some(m) => Some(m.insert(key@, value@)),
                None => None,
            },
    {
        match self.store.as_mut() {
            Some(s) => s.set(key, value),
            None => {},
        }
    }

    /// Copies the value under `key`, from byte `value_offset` on, into the
    /// front of `value_out`, as many bytes as fit; returns how many were
    /// copied, or `NOT_FOUND` (with the buffer untouched) where the bound
    /// store has no entry for the key. An offset past the end copies nothing.
    pub fn ext_get_storage_into(&self, key: &[u8], value_out: &mut Vec<u8>, value_offset: u32) -> (r: u32)
        requires
            self.wf(),
            self.bound() is Some,
            old(value_out)@.len() <= u32::MAX,
        ensures
            final(value_out)@.len() == old(value_out)@.len(),
            match lookup(self.bound().unwrap(), key@) {
                Some(v) => {
                    let w = read_window(v, value_offset as int, old(value_out)@.len() as int);
                    &&& r == w.len()
                    &&& final(value_out)@ == w + old(value_out)@.subrange(w.len() as int, old(value_out)@.len() as int)
                },
                None => r == NOT_FOUND && final(value_out)@ == old(value_out)@,
            },
    {
        let store = self.store.as_ref().unwrap();
        match store.get_into(key, value_offset as usize, value_out.len()) {
            Some(w) => {
                let ghost before = value_out@;
                let mut i: usize = 0;
                while i < w.len()
                    invariant
                        w@.len() <= before.len(),
                        i <= w@.len(),
                        value_out@.len() == before.len(),
                        forall|j: int| 0 <= j < i ==> value_out@[j] == w@[j],
                        forall|j: int| i <= j < before.len() ==> value_out@[j] == before[j],
                    decreases w@.len() - i,
                {
                    value_out.set(i, w[i]);
                    i = i + 1;
                }
                assert(value_out@ =~= w@ + before.subrange(w@.len() as int, before.len() as int));
                w.len() as u32
            },
            None => NOT_FOUND,
        }
    }
}

} // verus!
