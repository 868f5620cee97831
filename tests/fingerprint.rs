use driverkit::fingerprint::{device_key_bytes, fingerprint, fnv1a_64, FNV_OFFSET};

#[test]
fn fnv_of_empty_is_offset_basis() {
    assert_eq!(fnv1a_64(""), 14695981039346656037);
    assert_eq!(fnv1a_64(""), FNV_OFFSET);
}

#[test]
fn fnv_known_vectors() {
    assert_eq!(fnv1a_64("a"), 0xaf63dc4c8601ec8c);
    assert_eq!(fnv1a_64("foobar"), 0x85944171f73967e8);
}

#[test]
fn fnv_is_order_sensitive() {
    assert_ne!(fnv1a_64("ab"), fnv1a_64("ba"));
}

#[test]
fn canonical_key_layout() {
    assert_eq!(device_key_bytes(1, 2, "Foo"), b"1:2:Foo".to_vec());
    assert_eq!(device_key_bytes(0, 4294967295, ""), b"0:4294967295:".to_vec());
    assert_eq!(device_key_bytes(1452, 591, "Apple Internal Keyboard / Trackpad"),
        b"1452:591:Apple Internal Keyboard / Trackpad".to_vec());
    assert_eq!(device_key_bytes(10, 100, "é"), "10:100:é".as_bytes().to_vec());
}

#[test]
fn fingerprint_hashes_canonical_key() {
    assert_eq!(fingerprint(1, 2, "Foo"), fnv1a_64("1:2:Foo"));
    assert_eq!(fingerprint(0, 0, ""), fnv1a_64("0:0:"));
}

#[test]
fn fingerprint_is_deterministic() {
    assert_eq!(fingerprint(1, 2, "Foo"), fingerprint(1, 2, "Foo"));
    assert_eq!(fingerprint(7, 9, "My Kb"), fingerprint(7, 9, "My Kb"));
}

#[test]
fn fingerprint_changes_with_each_field() {
    let base = fingerprint(1, 2, "Foo");
    assert_ne!(base, fingerprint(3, 2, "Foo"));
    assert_ne!(base, fingerprint(1, 3, "Foo"));
    assert_ne!(base, fingerprint(1, 2, "Bar"));
    // "1:23:x" and "12:3:x" differ in their keys, so their hashes differ too.
    assert_ne!(fingerprint(1, 23, "x"), fingerprint(12, 3, "x"));
}
