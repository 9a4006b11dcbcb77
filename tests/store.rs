use parachain_validate::adapter::{StorageAdapter, NOT_FOUND};
use parachain_validate::bindings::{Binding, BindingGuard, HostBindings};
use parachain_validate::witness::{bytes_eq, copy_range, WitnessStore};

#[test]
fn set_then_get_round_trips() {
    let mut s = WitnessStore::new();
    s.set(b"alice", b"100");
    assert_eq!(s.get(b"alice"), Some(b"100".to_vec()));
}

#[test]
fn second_set_overwrites_first() {
    let mut s = WitnessStore::new();
    s.set(b"k", b"v1");
    s.set(b"k", b"v2");
    assert_eq!(s.get(b"k"), Some(b"v2".to_vec()));
}

#[test]
fn unset_key_is_absent() {
    let mut s = WitnessStore::new();
    assert_eq!(s.get(b"k"), None);
    s.set(b"key", b"v");
    assert_eq!(s.get(b"k"), None);
    assert_eq!(s.get(b"keys"), None);
    assert_eq!(s.get(b""), None);
}

#[test]
fn empty_key_and_value_are_entries() {
    let mut s = WitnessStore::new();
    s.set(b"", b"");
    assert_eq!(s.get(b""), Some(Vec::new()));
}

#[test]
fn get_into_reads_bounded_window() {
    let mut s = WitnessStore::new();
    s.set(b"k", b"abcdef");
    assert_eq!(s.get_into(b"k", 0, 4), Some(b"abcd".to_vec()));
    assert_eq!(s.get_into(b"k", 2, 10), Some(b"cdef".to_vec()));
    assert_eq!(s.get_into(b"k", 2, 3), Some(b"cde".to_vec()));
    assert_eq!(s.get_into(b"k", 6, 3), Some(Vec::new()));
    assert_eq!(s.get_into(b"k", 7, 3), Some(Vec::new()));
    assert_eq!(s.get_into(b"k", 1000, 3), Some(Vec::new()));
    assert_eq!(s.get_into(b"k", 0, 0), Some(Vec::new()));
    assert_eq!(s.get_into(b"x", 0, 3), None);
}

#[test]
fn from_entries_later_entry_wins() {
    let s = WitnessStore::from_entries(vec![
        (b"a".to_vec(), b"1".to_vec()),
        (b"b".to_vec(), b"2".to_vec()),
        (b"a".to_vec(), b"3".to_vec()),
    ]);
    assert_eq!(s.get(b"a"), Some(b"3".to_vec()));
    assert_eq!(s.get(b"b"), Some(b"2".to_vec()));
    assert_eq!(s.get(b"c"), None);
}

#[test]
fn byte_helpers() {
    assert!(bytes_eq(b"abc", b"abc"));
    assert!(!bytes_eq(b"abc", b"abd"));
    assert!(!bytes_eq(b"abc", b"ab"));
    assert_eq!(copy_range(b"abcdef", 1, 4), b"bcd".to_vec());
}

fn bound_adapter() -> StorageAdapter {
    let mut a = StorageAdapter::unbound();
    let mut s = WitnessStore::new();
    s.set(b"k", b"hello");
    a.bind(s);
    a
}

#[test]
fn allocated_read_returns_value_and_length() {
    let a = bound_adapter();
    assert_eq!(a.ext_get_allocated_storage(b"k"), (Some(b"hello".to_vec()), 5));
}

#[test]
fn allocated_read_of_missing_key_is_sentinel() {
    let a = bound_adapter();
    assert_eq!(a.ext_get_allocated_storage(b"missing"), (None, u32::MAX));
    assert_eq!(NOT_FOUND, u32::MAX);
}

#[test]
fn read_into_fills_buffer_front() {
    let a = bound_adapter();
    let mut buf = vec![9u8; 3];
    assert_eq!(a.ext_get_storage_into(b"k", &mut buf, 1), 3);
    assert_eq!(buf, b"ell".to_vec());
    let mut big = vec![9u8; 6];
    assert_eq!(a.ext_get_storage_into(b"k", &mut big, 2), 3);
    assert_eq!(big, vec![b'l', b'l', b'o', 9, 9, 9]);
}

#[test]
fn read_into_past_end_copies_nothing() {
    let a = bound_adapter();
    let mut buf = vec![9u8; 4];
    assert_eq!(a.ext_get_storage_into(b"k", &mut buf, 5), 0);
    assert_eq!(a.ext_get_storage_into(b"k", &mut buf, 50), 0);
    assert_eq!(buf, vec![9u8; 4]);
}

#[test]
fn read_into_missing_key_is_sentinel() {
    let a = bound_adapter();
    let mut buf = vec![9u8; 4];
    assert_eq!(a.ext_get_storage_into(b"nope", &mut buf, 0), NOT_FOUND);
    assert_eq!(buf, vec![9u8; 4]);
}

#[test]
fn write_goes_to_bound_store() {
    let mut a = bound_adapter();
    a.ext_set_storage(b"k", b"bye");
    a.ext_set_storage(b"new", b"x");
    assert_eq!(a.ext_get_allocated_storage(b"k"), (Some(b"bye".to_vec()), 3));
    assert_eq!(a.ext_get_allocated_storage(b"new"), (Some(b"x".to_vec()), 1));
}

#[test]
fn write_without_store_is_dropped() {
    let mut a = StorageAdapter::unbound();
    a.ext_set_storage(b"k", b"v");
    assert!(!a.is_bound());
}

#[test]
fn unbind_drops_store() {
    let mut a = bound_adapter();
    assert!(a.is_bound());
    a.unbind();
    assert!(!a.is_bound());
}

#[test]
fn guard_switches_and_restores_bindings() {
    let before = HostBindings {
        read_allocated: Binding::Host,
        read_into: Binding::Unimplemented,
        write: Binding::Host,
        others: Binding::Host,
    };
    let mut b = before;
    let g = BindingGuard::install(&mut b);
    assert_eq!(b.read_allocated, Binding::Witness);
    assert_eq!(b.read_into, Binding::Witness);
    assert_eq!(b.write, Binding::Witness);
    assert_eq!(b.others, Binding::Unimplemented);
    g.release(&mut b);
    assert_eq!(b, before);
    assert_eq!(HostBindings::host().others, Binding::Host);
}
