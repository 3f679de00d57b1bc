use rdup::hashing::ContentHasher;
use rdup::hashing::hash_bytes;

#[test]
fn identical_content_same_fingerprint() {
    let a = hash_bytes(b"hello");
    let b = hash_bytes(b"hello");
    assert_eq!(a, b);
}

#[test]
fn different_content_different_fingerprint() {
    let a = hash_bytes(b"hello");
    let b = hash_bytes(b"world");
    assert_ne!(a, b);
}

#[test]
fn deterministic_across_invocations() {
    let mut seen = Vec::new();
    for _ in 0..3 {
        seen.push(hash_bytes(b"some file content"));
    }
    assert_eq!(seen[0], seen[1]);
    assert_eq!(seen[1], seen[2]);
}

#[test]
fn chunking_does_not_change_fingerprint() {
    let mut h = ContentHasher::new();
    h.update(b"he");
    h.update(b"llo");
    assert_eq!(h.finish(), hash_bytes(b"hello"));

    let mut byte_by_byte = ContentHasher::new();
    for b in b"hello" {
        byte_by_byte.update(std::slice::from_ref(b));
    }
    assert_eq!(byte_by_byte.finish(), hash_bytes(b"hello"));
}

#[test]
fn empty_input_known_digest() {
    // The published XXH64 test vector: seed 0, no input.
    assert_eq!(hash_bytes(b""), 0xef46_db37_51d8_e999);
}

#[test]
fn fresh_hasher_equals_empty_input() {
    let h = ContentHasher::new();
    assert_eq!(h.finish(), hash_bytes(b""));
}
