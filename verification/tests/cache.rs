use eth_header::cache::{HeaderHashCache, HEADER_HASH_CACHE_SIZE, MAX_CAPACITY};
use eth_header::primitives::H256;

fn digest(text: &str) -> H256 {
    let digits: Vec<u8> = text
        .bytes()
        .map(|c| match c {
            b'0'..=b'9' => c - b'0',
            b'a'..=b'f' => c - b'a' + 10,
            _ => panic!("not a hex digit"),
        })
        .collect();
    let mut out = [0u8; 32];
    for (i, pair) in digits.chunks(2).enumerate() {
        out[i] = pair[0] * 16 + pair[1];
    }
    H256(out)
}

fn key(n: u32) -> Vec<u8> {
    n.to_be_bytes().to_vec()
}

#[test]
fn new_cache_is_empty_and_holds_one_hundred() {
    let cache = HeaderHashCache::new();
    assert_eq!(HEADER_HASH_CACHE_SIZE, 100);
    assert_eq!(cache.capacity(), 100);
    assert_eq!(cache.len(), 0);
    assert!(!cache.contains(&Vec::new()));
}

#[test]
fn capacity_must_be_positive_and_within_the_limit() {
    assert!(HeaderHashCache::with_capacity(0).is_none());
    assert!(HeaderHashCache::with_capacity(MAX_CAPACITY + 1).is_none());
    assert!(HeaderHashCache::with_capacity(usize::MAX).is_none());
    let smallest = HeaderHashCache::with_capacity(1).unwrap();
    assert_eq!(smallest.capacity(), 1);
    assert_eq!(smallest.len(), 0);
    assert_eq!(HeaderHashCache::with_capacity(7).unwrap().capacity(), 7);
}

#[test]
fn largest_capacity_is_accepted() {
    let cache = HeaderHashCache::with_capacity(MAX_CAPACITY).unwrap();
    assert_eq!(cache.capacity(), MAX_CAPACITY);
    assert_eq!(cache.len(), 0);
}

#[test]
fn digest_of_known_inputs() {
    let mut cache = HeaderHashCache::new();
    assert_eq!(
        cache.digest_of(b""),
        digest("c5d2460186f7233c927e7db2dcc703c0e500b653ca82273b7bfad8045d85a470")
    );
    assert_eq!(
        cache.digest_of(&[0xc0]),
        digest("1dcc4de8dec75d7aab85b567b6ccd41ad312451b948a7413f0a142fd40d49347")
    );
    assert_eq!(
        cache.digest_of(&[0x80]),
        digest("56e81f171bcc55a6ff8345e692c0f86e5b48e01b996cadc001622fb5e363b421")
    );
    assert_eq!(
        cache.digest_of(b"abc"),
        digest("4e03657aea45a94fc7d47ba826c8d667c0d1e6e33a64a036ec44f58fa12d6c45")
    );
    assert_eq!(cache.len(), 4);
}

#[test]
fn a_hit_returns_what_a_miss_computed() {
    let mut cache = HeaderHashCache::new();
    let miss = cache.digest_of(b"abc");
    assert!(cache.contains(&b"abc".to_vec()));
    let hit = cache.digest_of(b"abc");
    assert_eq!(miss, hit);
    assert_eq!(cache.len(), 1);
    let mut other = HeaderHashCache::with_capacity(1).unwrap();
    let _ = other.digest_of(b"xyz");
    assert_eq!(other.digest_of(b"abc"), miss);
}

#[test]
fn len_never_exceeds_the_capacity() {
    let mut cache = HeaderHashCache::with_capacity(3).unwrap();
    for n in 0..50 {
        let _ = cache.digest_of(&key(n));
        assert_eq!(cache.len(), (n as usize + 1).min(3));
        assert!(cache.len() <= cache.capacity());
    }
    let mut cache = HeaderHashCache::new();
    for n in 0..250 {
        let _ = cache.digest_of(&key(n));
        assert!(cache.len() <= 100);
    }
    assert_eq!(cache.len(), 100);
    assert!(!cache.contains(&key(149)));
    assert!(cache.contains(&key(150)));
    assert!(cache.contains(&key(249)));
}

#[test]
fn the_least_recently_used_key_leaves_first() {
    let mut cache = HeaderHashCache::with_capacity(2).unwrap();
    let _ = cache.digest_of(&key(1));
    let _ = cache.digest_of(&key(2));
    let _ = cache.digest_of(&key(3));
    assert!(!cache.contains(&key(1)));
    assert!(cache.contains(&key(2)));
    assert!(cache.contains(&key(3)));
    assert_eq!(cache.len(), 2);
}

#[test]
fn a_lookup_refreshes_the_key() {
    let mut cache = HeaderHashCache::with_capacity(2).unwrap();
    let _ = cache.digest_of(&key(1));
    let _ = cache.digest_of(&key(2));
    let _ = cache.digest_of(&key(1));
    let _ = cache.digest_of(&key(3));
    assert!(cache.contains(&key(1)));
    assert!(!cache.contains(&key(2)));
    assert!(cache.contains(&key(3)));
}

#[test]
fn contains_does_not_refresh_the_key() {
    let mut cache = HeaderHashCache::with_capacity(2).unwrap();
    let _ = cache.digest_of(&key(1));
    let _ = cache.digest_of(&key(2));
    assert!(cache.contains(&key(1)));
    let _ = cache.digest_of(&key(3));
    assert!(!cache.contains(&key(1)));
    assert!(cache.contains(&key(2)));
}

#[test]
fn a_cache_of_one_keeps_the_last_key() {
    let mut cache = HeaderHashCache::with_capacity(1).unwrap();
    let first = cache.digest_of(&key(1));
    let _ = cache.digest_of(&key(2));
    assert!(!cache.contains(&key(1)));
    assert!(cache.contains(&key(2)));
    assert_eq!(cache.digest_of(&key(1)), first);
    assert_eq!(cache.len(), 1);
}

#[test]
fn keys_are_compared_by_content() {
    let mut cache = HeaderHashCache::new();
    let a = cache.digest_of(&[1, 2, 3]);
    let mut same = Vec::with_capacity(64);
    same.extend_from_slice(&[1, 2, 3]);
    assert!(cache.contains(&same));
    assert_eq!(cache.digest_of(&same), a);
    assert_eq!(cache.len(), 1);
    assert_ne!(cache.digest_of(&[1, 2, 3, 0]), a);
    assert_ne!(cache.digest_of(&[1, 2]), a);
    assert_eq!(cache.len(), 3);
}
