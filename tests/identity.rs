use easy_socket::identity::generate_stable_id;
use std::collections::hash_map::DefaultHasher;
use std::hash::{Hash, Hasher};

#[test]
fn test_stable_socket_ids() {
    let addr = "127.0.0.1:8080";
    let id1 = generate_stable_id(addr);
    let id2 = generate_stable_id(addr);
    assert_eq!(id1, id2, "Same address should generate same ID");
}

#[test]
fn stable_id_is_non_negative_and_fits_31_bits() {
    for addr in ["", "127.0.0.1:8080", "[::1]:443", "peer-ß-名前", "10.0.0.1:1"] {
        let id = generate_stable_id(addr);
        assert!(id >= 0);
        assert!((id as i64) < (1i64 << 31));
        assert_eq!(id, generate_stable_id(&addr.to_string()));
    }
}

#[test]
fn stable_id_matches_str_hash() {
    let addr = "192.168.1.20:4000";
    let mut hasher = DefaultHasher::new();
    addr.hash(&mut hasher);
    let expected = (hasher.finish() & 0x7FFF_FFFF) as i32;
    assert_eq!(generate_stable_id(addr), expected);
}
