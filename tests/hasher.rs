use nohash::{NoHashHasher, NoHashMap, NoHashSet};
use std::hash::{BuildHasher, Hasher};

#[test]
fn hasher_direct_usage_unsigned() {
    let mut hasher = NoHashHasher::<u32>::default();
    hasher.write_u32(12345);
    assert_eq!(hasher.finish(), 12345);
}

#[test]
fn hasher_direct_usage_signed() {
    let mut hasher = NoHashHasher::<i64>::default();
    hasher.write_i64(-1);
    assert_eq!(hasher.finish(), -1i64 as u64);
}

#[test]
fn nohashmap_works() {
    let mut map = NoHashMap::<u64, &str>::default();
    map.insert(42, "hello");
    map.insert(101, "world");

    assert_eq!(map.len(), 2);
    assert_eq!(map.get(&42), Some(&"hello"));
    assert_eq!(map.get(&101), Some(&"world"));
    assert_eq!(map.get(&999), None);
    assert!(map.contains_key(&42));
}

#[test]
fn nohashset_works() {
    let mut set = NoHashSet::<i32>::default();
    set.insert(-10);
    set.insert(0);
    set.insert(500);

    assert_eq!(set.len(), 3);
    assert!(set.contains(&-10));
    assert!(set.contains(&500));
    assert!(!set.contains(&1));
}

#[test]
#[should_panic(expected = "NoHashHasher is intended for word-sized keys only")]
fn write_slice_panics() {
    let mut hasher = NoHashHasher::<u8>::default();
    hasher.write(b"this is not an integer");
}

#[test]
fn u32_keys_map_scenario() {
    let mut map = NoHashMap::<u32, u32>::default();
    map.insert(42u32, 1);
    map.insert(101u32, 2);
    assert_eq!(map.get(&42u32), Some(&1));
    assert_eq!(map.get(&101u32), Some(&2));
    assert_eq!(map.get(&999u32), None);
}

#[test]
fn char_keys_in_a_set() {
    let mut set = NoHashSet::<char>::default();
    set.insert('a');
    set.insert('\u{10FFFF}');
    assert_eq!(set.len(), 2);
    assert!(set.contains(&'a'));
    assert!(!set.contains(&'b'));
}

#[test]
fn each_kind_finishes_to_its_bits() {
    let mut h = NoHashHasher::<u8>::new();
    h.write_u8(u8::MAX);
    assert_eq!(h.finish(), 255);

    let mut h = NoHashHasher::<u16>::new();
    h.write_u16(u16::MAX);
    assert_eq!(h.finish(), 65535);

    let mut h = NoHashHasher::<u64>::new();
    h.write_u64(u64::MAX);
    assert_eq!(h.finish(), u64::MAX);

    let mut h = NoHashHasher::<usize>::new();
    h.write_usize(7);
    assert_eq!(h.finish(), 7);

    let mut h = NoHashHasher::<i8>::new();
    h.write_i8(i8::MIN);
    assert_eq!(h.finish(), 0xffff_ffff_ffff_ff80);

    let mut h = NoHashHasher::<i16>::new();
    h.write_i16(-2);
    assert_eq!(h.finish(), u64::MAX - 1);

    let mut h = NoHashHasher::<i32>::new();
    h.write_i32(i32::MAX);
    assert_eq!(h.finish(), 0x7fff_ffff);

    let mut h = NoHashHasher::<i64>::new();
    h.write_i64(i64::MIN);
    assert_eq!(h.finish(), 0x8000_0000_0000_0000);

    let mut h = NoHashHasher::<isize>::new();
    h.write_isize(-1);
    assert_eq!(h.finish(), u64::MAX);

    let mut h = NoHashHasher::<i32>::new();
    h.write_i32(0);
    assert_eq!(h.finish(), 0);
}

#[test]
fn fresh_hasher_finishes_to_zero() {
    let h = NoHashHasher::<u32>::new();
    assert_eq!(h.finish(), 0);
    assert!(h.accepts_write());
}

#[test]
fn finish_twice_agrees() {
    let mut h = NoHashHasher::<i16>::new();
    h.write_i16(-300);
    let first = h.finish();
    let second = h.finish();
    assert_eq!(first, second);
    assert_eq!(first, (-300i64) as u64);
}

#[test]
fn written_hasher_refuses_second_write_with_diagnostics() {
    let mut h = NoHashHasher::<u64>::new();
    assert!(h.accepts_write());
    h.write_u64(9);
    assert!(!h.accepts_write());
}

#[test]
fn without_diagnostics_last_write_wins() {
    let mut h = NoHashHasher::<u64>::with_diagnostics(false);
    h.write_u64(9);
    assert!(h.accepts_write());
    h.write_u64(11);
    assert_eq!(h.finish(), 11);
}

#[test]
fn build_hasher_hashes_integer_to_itself() {
    let state = nohash::StableState::<u32>::default();
    assert_eq!(state.hash_one(77u32), 77);
    let signed = nohash::StableState::<i8>::default();
    assert_eq!(signed.hash_one(-1i8), u64::MAX);
}
