use deeplx_monitor::cache::{TranslationCache, MAX_HIT_LOG};
use serde_json::Value;
use sha2::Digest;

const NOW: &str = "2025-05-29T14:30:00";

fn make_cache(enabled: bool) -> TranslationCache {
    TranslationCache::new(enabled, 3600, 1000, 0, "2025-05-29".to_string())
}

fn object(pairs: Vec<(&str, Value)>) -> Value {
    let mut m = serde_json::Map::new();
    for (k, v) in pairs {
        m.insert(k.to_string(), v);
    }
    Value::Object(m)
}

#[test]
fn test_insert_and_get() {
    let mut cache = make_cache(true);
    let json = object(vec![("code", Value::from(200)), ("data", Value::from("你好"))]);
    cache.insert("hello", "EN", "ZH", json.clone());

    let result = cache.get("hello", "EN", "ZH", NOW);
    assert!(result.is_some());
    assert_eq!(result.unwrap().response_json, json);
}

#[test]
fn test_disabled_cache_returns_none() {
    let mut cache = make_cache(false);
    let json = object(vec![("code", Value::from(200)), ("data", Value::from("你好"))]);
    cache.insert("hello", "EN", "ZH", json);

    let result = cache.get("hello", "EN", "ZH", NOW);
    assert!(result.is_none(), "禁用缓存时应返回 None");
}

#[test]
fn test_different_lang_pair_is_different_key() {
    let mut cache = make_cache(true);
    let json_en_zh = object(vec![("data", Value::from("你好"))]);
    let json_en_ja = object(vec![("data", Value::from("こんにちは"))]);
    cache.insert("hello", "EN", "ZH", json_en_zh.clone());
    cache.insert("hello", "EN", "JA", json_en_ja.clone());

    assert_eq!(cache.get("hello", "EN", "ZH", NOW).unwrap().response_json, json_en_zh);
    assert_eq!(cache.get("hello", "EN", "JA", NOW).unwrap().response_json, json_en_ja);
}

#[test]
fn test_hit_miss_counting() {
    let mut cache = make_cache(true);
    let json = object(vec![("data", Value::from("test"))]);
    cache.insert("hello", "EN", "ZH", json);

    cache.get("hello", "EN", "ZH", NOW);
    cache.get("hello", "EN", "ZH", NOW);
    cache.get("world", "EN", "ZH", NOW);

    let stats = cache.stats("2025-05-29".to_string());
    assert_eq!(stats.hits, 2);
    assert_eq!(stats.misses, 1);
    let hit_rate = stats.hits as f64 / (stats.hits + stats.misses) as f64;
    assert!((hit_rate - 2.0 / 3.0).abs() < 0.001);
}

#[test]
fn test_clear_resets_everything() {
    let mut cache = make_cache(true);
    let json = object(vec![("data", Value::from("test"))]);
    cache.insert("hello", "EN", "ZH", json);
    cache.get("hello", "EN", "ZH", NOW);

    cache.clear();

    let stats = cache.stats("2025-05-29".to_string());
    assert_eq!(stats.hits, 0);
    assert_eq!(stats.misses, 0);
    assert_eq!(stats.size, 0);
    assert!(cache.get("hello", "EN", "ZH", NOW).is_none());
}

#[test]
fn test_reload_rebuilds_cache() {
    let mut cache = make_cache(true);
    let json = object(vec![("data", Value::from("test"))]);
    cache.insert("hello", "EN", "ZH", json);

    cache.reload(true, 7200, 2000, 0);

    assert!(cache.get("hello", "EN", "ZH", NOW).is_none());
    assert_eq!(cache.stats("2025-05-29".to_string()).ttl_secs, 7200);
    assert_eq!(cache.stats("2025-05-29".to_string()).max_entries, 2000);
}

#[test]
fn test_restore_stats() {
    let mut cache = make_cache(true);
    cache.restore_stats(100, 50);
    let stats = cache.stats("2025-05-29".to_string());
    assert_eq!(stats.hits, 100);
    assert_eq!(stats.misses, 50);
}

#[test]
fn test_get_raw_stats() {
    let mut cache = make_cache(true);
    let json = object(vec![("data", Value::from("test"))]);
    cache.insert("hello", "EN", "ZH", json);
    cache.get("hello", "EN", "ZH", NOW);
    cache.get("world", "EN", "ZH", NOW);

    let (hits, misses) = cache.get_raw_stats();
    assert_eq!(hits, 1);
    assert_eq!(misses, 1);
}

#[test]
fn test_hit_log_records_entries() {
    let mut cache = make_cache(true);
    let json = object(vec![("data", Value::from("test"))]);
    cache.insert("hello world", "EN", "ZH", json);
    cache.get("hello world", "EN", "ZH", NOW);

    let log = cache.hit_log();
    assert_eq!(log.len(), 1);
    assert_eq!(log[0].source_lang, "EN");
    assert_eq!(log[0].target_lang, "ZH");
    assert_eq!(log[0].text_preview, "hello world");
}

#[test]
fn test_hit_log_max_capacity() {
    let mut cache = make_cache(true);
    for i in 0..150 {
        let text = format!("text_{}", i);
        let json = object(vec![("data", Value::from(text.clone()))]);
        cache.insert(&text, "EN", "ZH", json);
        cache.get(&text, "EN", "ZH", NOW);
    }

    let log = cache.hit_log();
    assert_eq!(log.len(), MAX_HIT_LOG, "命中日志应限制在 {} 条", MAX_HIT_LOG);
}

#[test]
fn test_memory_based_cache() {
    let mut cache = TranslationCache::new(true, 3600, 1000, 1, "2025-05-29".to_string());
    let stats = cache.stats("2025-05-29".to_string());
    assert_eq!(stats.max_memory_mb, 1);
}

#[test]
fn memory_bounded_cache_stores_and_returns() {
    let mut cache = TranslationCache::new(true, 3600, 1000, 1, "2025-05-29".to_string());
    let json = object(vec![("data", Value::from("bonjour"))]);
    cache.insert("hello", "EN", "FR", json.clone());
    assert_eq!(cache.get("hello", "EN", "FR", NOW).unwrap().response_json, json);
}

#[test]
fn hit_log_is_newest_first_and_previews_fifty_chars() {
    let mut cache = make_cache(true);
    let long: String = "a".repeat(60);
    cache.insert(&long, "EN", "ZH", Value::from(1));
    cache.insert("second", "EN", "JA", Value::from(2));
    cache.get(&long, "EN", "ZH", "2025-05-29T10:00:00");
    cache.get("second", "EN", "JA", "2025-05-29T11:00:00");
    let log = cache.hit_log();
    assert_eq!(log.len(), 2);
    assert_eq!(log[0].text_preview, "second");
    assert_eq!(log[0].timestamp, "2025-05-29T11:00:00");
    assert_eq!(log[1].text_preview, "a".repeat(50));
    assert_eq!(log[1].target_lang, "ZH");
}

#[test]
fn day_change_resets_only_todays_counters() {
    let mut cache = make_cache(true);
    cache.insert("hello", "EN", "ZH", Value::from(1));
    cache.get("hello", "EN", "ZH", "2025-05-29T23:59:00");
    cache.get("other", "EN", "ZH", "2025-05-29T23:59:30");
    let stats = cache.stats("2025-05-29".to_string());
    assert_eq!((stats.today_hits, stats.today_misses), (1, 1));
    cache.get("hello", "EN", "ZH", "2025-05-30T00:00:10");
    let stats = cache.stats("2025-05-30".to_string());
    assert_eq!((stats.hits, stats.misses), (2, 1));
    assert_eq!((stats.today_hits, stats.today_misses), (1, 0));
    let stats = cache.stats("2025-05-31".to_string());
    assert_eq!((stats.today_hits, stats.today_misses), (0, 0));
    assert_eq!((stats.hits, stats.misses), (2, 1));
}

#[test]
fn disabled_cache_counts_nothing() {
    let mut cache = make_cache(false);
    cache.get("hello", "EN", "ZH", NOW);
    let stats = cache.stats("2025-05-29".to_string());
    assert_eq!((stats.hits, stats.misses), (0, 0));
    assert!(!stats.enabled);
}

#[test]
fn cache_key_is_lowercase_sha256_hex() {
    let key = TranslationCache::make_key("chat", "EN", "ZH");
    assert_eq!(key.len(), 64);
    assert!(key.chars().all(|c| c.is_ascii_digit() || ('a'..='f').contains(&c)));
    let mut hasher = sha2::Sha256::new();
    hasher.update(b"chat|EN|ZH");
    let expected = format!("{:x}", hasher.finalize());
    assert_eq!(key, expected);
}

#[test]
fn test_cache_key_differs_by_source_lang() {
    let text = "chat";
    let key_fr = TranslationCache::make_key(text, "FR", "ZH");
    let key_en = TranslationCache::make_key(text, "EN", "ZH");
    assert_ne!(key_fr, key_en, "不同 source_lang 应产生不同缓存 key，避免缓存污染");
}

#[test]
fn today_str_takes_the_date() {
    assert_eq!(deeplx_monitor::cache::today_str("2025-05-29T14:30:00"), "2025-05-29");
    assert_eq!(deeplx_monitor::cache::today_str("no-separator"), "no-separator");
}
