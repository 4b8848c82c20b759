use dgg_embeds::cache::{Cache, CacheEntry};

fn entry(timestamp: i64, title: &str) -> CacheEntry {
    CacheEntry {
        timestamp,
        platform: "twitch".to_string(),
        channel: "abc".to_string(),
        title: title.to_string(),
    }
}

#[test]
fn a_new_cache_is_empty() {
    let mut cache = Cache::new();
    assert!(cache.is_empty());
    assert!(!cache.contains_key("a"));
    assert_eq!(cache.title("a"), None);
    cache.retain_young(0);
    assert!(cache.is_empty());
}

#[test]
fn an_entry_is_found_by_its_link() {
    let mut cache = Cache::new();
    cache.insert("a".to_string(), entry(1, "one"));
    cache.insert("b".to_string(), entry(2, "two"));
    cache.insert("a".to_string(), entry(3, "three"));
    assert!(!cache.is_empty());
    assert!(cache.contains_key("a"));
    assert_eq!(cache.title("a"), Some("three".to_string()));
    assert_eq!(cache.title("b"), Some("two".to_string()));
    assert_eq!(cache.title("c"), None);
}

#[test]
fn an_entry_lives_a_minute() {
    let mut cache = Cache::new();
    cache.insert("old".to_string(), entry(100_000, "old"));
    cache.insert("young".to_string(), entry(100_001, "young"));
    cache.insert("ancient".to_string(), entry(-5, "ancient"));
    cache.retain_young(159_999);
    assert!(cache.contains_key("old"));
    assert!(!cache.contains_key("ancient"));
    cache.retain_young(160_000);
    assert!(!cache.contains_key("old"));
    assert_eq!(cache.title("young"), Some("young".to_string()));
    cache.retain_young(160_001);
    assert!(cache.is_empty());
    cache.insert("old".to_string(), entry(200_000, "new"));
    assert_eq!(cache.title("old"), Some("new".to_string()));
}

#[test]
fn cleaning_once_or_twice_is_the_same() {
    let mut cache = Cache::new();
    let mut other = Cache::new();
    for i in 0..10 {
        cache.insert(format!("{}", i), entry(60_000 + i, "x"));
        other.insert(format!("{}", i), entry(60_000 + i, "x"));
    }
    cache.retain_young(120_002);
    cache.retain_young(120_005);
    other.retain_young(120_005);
    for i in 0..10 {
        assert_eq!(cache.contains_key(&format!("{}", i)), i > 5);
        assert_eq!(other.contains_key(&format!("{}", i)), i > 5);
    }
}
