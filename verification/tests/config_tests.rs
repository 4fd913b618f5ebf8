use deeplx_monitor::api::{
    apply_config_update, config_to_full_info, CacheInfo, DemoInfo, EndpointInfo, ProxyInfo, UpdateFullConfigPayload,
    UpstreamInfo,
};
use deeplx_monitor::cache::TranslationCache;
use deeplx_monitor::config::{
    apply_runtime_settings, check_cache_settings, default_cache_max_entries, default_cache_ttl_secs,
    default_demo_seed, default_log_retention_days, default_max_failures, default_probe_interval_secs,
    default_proxy_host, default_proxy_port, default_source_lang, default_target_lang, proxy_address_changed,
    CacheConfig, Config, EndpointConfig,
};
use deeplx_monitor::upstream::LoadBalancer;

#[test]
fn test_default_config() {
    let config = Config::default();
    assert_eq!(config.proxy.host, "127.0.0.1");
    assert_eq!(config.proxy.port, 5555);
    assert_eq!(config.upstream.max_failures, 3);
    assert_eq!(config.upstream.probe_interval_secs, 60);
    assert_eq!(config.monitor.log_retention_days, 30);
    assert_eq!(config.cache.ttl_secs, 3600);
    assert_eq!(config.cache.max_entries, 10000);
    assert!(!config.cache.enabled);
    assert!(!config.demo.enabled);
}

#[test]
fn default_helpers_give_documented_values() {
    assert_eq!(default_max_failures(), 3);
    assert_eq!(default_probe_interval_secs(), 60);
    assert_eq!(default_proxy_host(), "127.0.0.1");
    assert_eq!(default_proxy_port(), 5555);
    assert_eq!(default_log_retention_days(), 30);
    assert_eq!(default_demo_seed(), 20260511);
    assert_eq!(default_source_lang(), "EN");
    assert_eq!(default_target_lang(), "ZH");
    assert_eq!(default_cache_ttl_secs(), 3600);
    assert_eq!(default_cache_max_entries(), 10000);
    let config = Config::default();
    assert_eq!(config.health_check.source_lang, "EN");
    assert_eq!(config.health_check.target_lang, "ZH");
    assert_eq!(config.monitor.auto_refresh_seconds, 0);
    assert_eq!(config.cache.max_memory_mb, 0);
    assert!(config.upstream.endpoints.is_empty());
}

#[test]
fn cache_settings_validity() {
    let mut c = CacheConfig::default();
    assert!(check_cache_settings(&c));
    c.ttl_secs = 31_536_000_001;
    assert!(!check_cache_settings(&c));
    c.ttl_secs = 31_536_000_000;
    assert!(check_cache_settings(&c));
    c.max_memory_mb = u64::MAX / (1024 * 1024) + 1;
    assert!(!check_cache_settings(&c));
}

#[test]
fn address_change_detection() {
    let a = Config::default();
    let mut b = Config::default();
    assert!(!proxy_address_changed(&a, &b));
    b.proxy.port = 6000;
    assert!(proxy_address_changed(&a, &b));
    let mut c = Config::default();
    c.proxy.host = "0.0.0.0".to_string();
    assert!(proxy_address_changed(&a, &c));
}

#[test]
fn update_then_read_back() {
    let mut config = Config::default();
    let payload = UpdateFullConfigPayload {
        upstream: Some(UpstreamInfo {
            endpoints: vec![EndpointInfo {
                name: "test".to_string(),
                url: "http://localhost:1188/translate".to_string(),
                api_key: "secret".to_string(),
            }],
            max_failures: 5,
            probe_interval_secs: 120,
        }),
        proxy: Some(ProxyInfo { host: "0.0.0.0".to_string(), port: 9999 }),
        monitor: None,
        health_check: None,
        cache: Some(CacheInfo { enabled: true, ttl_secs: 7200, max_entries: 50, max_memory_mb: 2 }),
        demo: Some(DemoInfo { enabled: true, seed: 7 }),
    };
    apply_config_update(&mut config, payload);
    let info = config_to_full_info(&config);
    assert_eq!(info.upstream.endpoints.len(), 1);
    assert_eq!(info.upstream.endpoints[0].name, "test");
    assert_eq!(info.upstream.endpoints[0].url, "http://localhost:1188/translate");
    assert_eq!(info.upstream.endpoints[0].api_key, "secret");
    assert_eq!(info.upstream.max_failures, 5);
    assert_eq!(info.upstream.probe_interval_secs, 120);
    assert_eq!(info.proxy.host, "0.0.0.0");
    assert_eq!(info.proxy.port, 9999);
    assert_eq!(info.monitor.log_retention_days, 30);
    assert_eq!(info.health_check.source_lang, "EN");
    assert!(info.cache.enabled);
    assert_eq!(info.cache.ttl_secs, 7200);
    assert_eq!(info.cache.max_memory_mb, 2);
    assert_eq!(info.demo.seed, 7);
}

#[test]
fn runtime_settings_reload_balancer_and_cache() {
    let mut config = Config::default();
    config.upstream.endpoints = vec![
        EndpointConfig { name: "a".to_string(), url: "http://a".to_string(), api_key: String::new() },
        EndpointConfig { name: "b".to_string(), url: "http://b".to_string(), api_key: String::new() },
    ];
    config.upstream.max_failures = 1;
    config.cache.enabled = true;
    config.cache.ttl_secs = 10;
    let mut lb = LoadBalancer::new(vec![], 3);
    let mut cache = TranslationCache::new(false, 3600, 100, 0, "2025-01-01".to_string());
    apply_runtime_settings(&config, &mut lb, &mut cache);
    assert_eq!(lb.endpoint_count(), 2);
    assert_eq!(lb.generation(), 1);
    let stats = cache.stats("2025-01-01".to_string());
    assert!(stats.enabled);
    assert_eq!(stats.ttl_secs, 10);
    assert_eq!(stats.max_entries, 10000);
}
