use jodyhash::{hash_words, HashError, JodyHasher};

/// Hashes a string whose byte length is a whole number of 64-bit words,
/// feeding each word in little-endian order.
fn jodyhash_string(s: &str) -> u64 {
    assert!(s.len() % 8 == 0);
    let mut h = JodyHasher::default();
    for chunk in s.as_bytes().chunks(8) {
        let mut word = [0u8; 8];
        word.copy_from_slice(chunk);
        h.write_u64(u64::from_le_bytes(word));
    }
    h.finish()
}

#[test]
fn test_jodyhash() {
    // Single word strings
    assert_eq!(jodyhash_string("aaaaaaaa"), 0xa1b314f742d47698u64);
    assert_eq!(jodyhash_string("abcdefgh"), 0xea0ab92ac586d967u64);
    assert_eq!(jodyhash_string("hgfedcba"), 0x31f588dbf657cc7fu64);
    assert_eq!(jodyhash_string("jodyhash"), 0xba43645fabc566ddu64);

    // 2-word strings
    assert_eq!(jodyhash_string("aaaaaaaaaaaaaaaa"), 0x35d0ccd0c8b5a5a5u64);
    assert_eq!(jodyhash_string("abcdefghijklmnop"), 0xcef9115bbc6c0f84u64);
    assert_eq!(jodyhash_string("zyxwvutsrqponmlk"), 0xe408a517f5c12d07u64);
}

#[test]
fn test_write_matches_word_ingestion() {
    let mut by_bytes = JodyHasher::new();
    by_bytes.write(b"abcdefghijklmnop").unwrap();
    let mut by_words = JodyHasher::new();
    by_words.write_u64(u64::from_le_bytes(*b"abcdefgh"));
    by_words.write_u64(u64::from_le_bytes(*b"ijklmnop"));
    assert_eq!(by_bytes.finish(), by_words.finish());
    assert_eq!(by_bytes.finish(), 0xcef9115bbc6c0f84u64);
}

#[test]
fn test_determinism() {
    let words = [3u64, 1, 4, 1, 5, 9, 2, 6];
    let d1 = hash_words(&words);
    let d2 = hash_words(&words);
    assert_eq!(d1, d2);
    let mut h = JodyHasher::new();
    for w in words {
        h.write_u64(w);
    }
    assert_eq!(h.finish(), d1);
}

#[test]
fn test_order_sensitivity() {
    let ab = hash_words(&[0u64, 1u64]);
    let ba = hash_words(&[1u64, 0u64]);
    assert_ne!(ab, ba);
    assert_eq!(ab, 0x7ae7ab6f2f222623u64);
    assert_eq!(ba, 0x7de7a76f2f226622u64);
}

#[test]
fn test_incrementality() {
    let words = [11u64, u64::MAX, 0, 42];
    let mut h = JodyHasher::new();
    let mut partials = Vec::new();
    for w in words {
        h.write_u64(w);
        partials.push(h.finish());
    }
    // Finalizing is a pure read: digests read along the way equal fresh
    // one-shot digests of the same prefixes, and reading twice agrees.
    for i in 0..words.len() {
        assert_eq!(partials[i], hash_words(&words[..=i]));
    }
    assert_eq!(h.finish(), h.finish());
}

#[test]
fn test_wraparound() {
    let mut h = JodyHasher::new();
    h.write_u64(u64::MAX);
    assert_eq!(h.finish(), 0xfe0c2a4860c2a485u64);
    h.write_u64(u64::MAX);
    assert_eq!(h.finish(), 0x780000003f226621u64);
}

#[test]
fn test_fresh_hasher_digest_is_zero() {
    assert_eq!(JodyHasher::new().finish(), 0);
    assert_eq!(JodyHasher::default().finish(), 0);
}

#[test]
fn test_write_empty_is_ok() {
    let mut h = JodyHasher::new();
    assert_eq!(h.write(&[]), Ok(()));
    assert_eq!(h.finish(), 0);
}

#[test]
fn test_unsupported_shape() {
    for len in [1usize, 3, 7, 9, 15] {
        let bytes = vec![0xabu8; len];
        let mut h = JodyHasher::new();
        h.write_u64(5);
        let before = h.finish();
        let r = h.write(&bytes);
        assert_eq!(r, Err(HashError::UnsupportedInputShape));
        assert_eq!(h.finish(), before);
    }
}
