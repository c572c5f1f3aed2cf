use kura::image_protocol_cache::{ImageProtocolCache, MAX_SIZE};

#[test]
fn insert_then_take() {
    let mut c: ImageProtocolCache<u32> = ImageProtocolCache::new();
    assert!(!c.contains("a"));
    c.insert("a".to_string(), 1);
    assert!(c.contains("a"));
    c.insert("a".to_string(), 2);
    assert_eq!(c.take("a"), Some(2));
    assert!(!c.contains("a"));
    assert_eq!(c.take("a"), None);
}

#[test]
fn oldest_key_is_evicted() {
    let mut c: ImageProtocolCache<usize> = ImageProtocolCache::default();
    for i in 0..MAX_SIZE {
        c.insert(format!("k{i}"), i);
    }
    assert!(c.contains("k0"));
    // Re-inserting an existing key does not make it newer.
    c.insert("k0".to_string(), 100);
    c.insert("new".to_string(), 7);
    assert!(!c.contains("k0"));
    assert!(c.contains("k1"));
    assert!(c.contains("new"));
    assert_eq!(c.take("k9"), Some(9));
    c.insert("another".to_string(), 8);
    assert!(c.contains("k1"));
    c.check_bounds();
}

#[test]
fn taking_removes_only_that_key() {
    let mut c: ImageProtocolCache<u8> = ImageProtocolCache::new();
    c.insert("a".to_string(), 1);
    c.insert("b".to_string(), 2);
    c.insert("c".to_string(), 3);
    assert_eq!(c.take("b"), Some(2));
    assert!(!c.contains("b"));
    assert!(c.contains("a") && c.contains("c"));
    assert_eq!(c.take("c"), Some(3));
    assert_eq!(c.take("a"), Some(1));
    assert!(!c.contains("a"));
}

#[test]
fn a_full_cache_forgets_its_oldest_key() {
    let mut c: ImageProtocolCache<usize> = ImageProtocolCache::new();
    for i in 0..MAX_SIZE {
        c.insert(format!("h{i}"), i);
    }
    c.insert("fresh".to_string(), 99);
    assert!(!c.contains("h0"));
    for i in 1..MAX_SIZE {
        assert!(c.contains(&format!("h{i}")));
    }
    assert_eq!(c.take("fresh"), Some(99));
}
