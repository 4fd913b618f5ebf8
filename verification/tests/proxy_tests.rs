use deeplx_monitor::cache::TranslationCache;
use deeplx_monitor::config::EndpointConfig;
use deeplx_monitor::proxy::{
    after_attempt, authorization_header, cached_response, failover, finish_translation, no_endpoint_reply, prepare_translation,
    remember_response, target_chars, AttemptOutcome, DataField, JsonText, NextStep, ReplyBody, RequestError,
    TranslateRequest,
};
use deeplx_monitor::upstream::LoadBalancer;
use serde_json::Value;

fn request(text: Option<&str>, target: Option<&str>, source: Option<&str>) -> TranslateRequest {
    TranslateRequest {
        text: text.map(|s| s.to_string()),
        target_lang: target.map(|s| s.to_string()),
        source_lang: source.map(|s| s.to_string()),
    }
}

fn endpoints(n: usize) -> Vec<EndpointConfig> {
    (0..n)
        .map(|i| EndpointConfig { name: format!("ep-{}", i), url: format!("http://u{}", i), api_key: String::new() })
        .collect()
}

#[test]
fn request_errors() {
    let e = prepare_translation(&request(None, None, None), None).err().unwrap();
    assert_eq!(e, RequestError::EmptyText);
    assert_eq!(e.status(), 400);
    assert_eq!(e.message(), "text field is required and must not be empty");
    let e = prepare_translation(&request(Some(""), None, None), None).err().unwrap();
    assert_eq!(e, RequestError::EmptyText);
    let long = "字".repeat(50001);
    let e = prepare_translation(&request(Some(&long), None, None), None).err().unwrap();
    assert_eq!(e, RequestError::TextTooLong);
    assert_eq!(e.message(), "text exceeds maximum length of 50000 characters");
    let max = "字".repeat(50000);
    assert!(prepare_translation(&request(Some(&max), None, None), None).is_ok());
}

#[test]
fn prepared_request_resolves_languages() {
    let p = prepare_translation(&request(Some("你好世界"), None, None), None).ok().unwrap();
    assert_eq!(p.source_chars, 4);
    assert_eq!(p.target_lang, "ZH");
    assert_eq!(p.source_lang, "ZH");
    assert!(p.use_cache);
    let p = prepare_translation(&request(Some("hello"), Some("ja"), Some("en")), Some("true")).ok().unwrap();
    assert_eq!(p.target_lang, "JA");
    assert_eq!(p.source_lang, "EN");
    assert!(!p.use_cache);
    let p = prepare_translation(&request(Some("hello"), None, Some("auto")), Some("TRUE")).ok().unwrap();
    assert_eq!(p.source_lang, "EN");
    assert!(p.use_cache);
}

#[test]
fn no_cache_requests_skip_the_cache() {
    let mut cache = TranslationCache::new(true, 3600, 100, 0, "2025-01-01".to_string());
    cache.insert("hello", "EN", "ZH", Value::from("cached"));
    let bypass = prepare_translation(&request(Some("hello"), None, Some("EN")), Some("true")).ok().unwrap();
    assert!(cached_response(&mut cache, &bypass, "2025-01-01T00:00:00").is_none());
    assert_eq!(cache.get_raw_stats(), (0, 0));
    let normal = prepare_translation(&request(Some("hello"), None, Some("EN")), None).ok().unwrap();
    let hit = cached_response(&mut cache, &normal, "2025-01-01T00:00:00").unwrap();
    assert_eq!(hit.response_json, Value::from("cached"));
    assert_eq!(cache.get_raw_stats(), (1, 0));
}

#[test]
fn failover_picks_another_endpoint() {
    let mut lb = LoadBalancer::new(endpoints(2), 3);
    let first = lb.select().unwrap();
    let next = failover(&mut lb, &first, "timeout").unwrap();
    assert_eq!(next.index(), 1);
    assert_eq!(lb.status()[0].last_error.as_deref(), Some("timeout"));
    let mut single = LoadBalancer::new(endpoints(1), 3);
    let only = single.select().unwrap();
    assert!(failover(&mut single, &only, "x").is_none());
    assert_eq!(no_endpoint_reply(), (503, "no upstream endpoints configured"));
}

#[test]
fn translated_length_from_data() {
    assert_eq!(target_chars(&DataField::Text("你好".to_string())), 2);
    assert_eq!(
        target_chars(&DataField::Object {
            text: None,
            target_text: Some(JsonText::Text("abc".to_string())),
            translation: Some(JsonText::Text("zzzzz".to_string())),
        }),
        3
    );
    assert_eq!(
        target_chars(&DataField::Object { text: Some(JsonText::NotText), target_text: None, translation: None }),
        0
    );
    assert_eq!(target_chars(&DataField::Other), 0);
}

#[test]
fn finishing_a_successful_reply() {
    let mut lb = LoadBalancer::new(endpoints(1), 3);
    let used = lb.select().unwrap();
    let p = prepare_translation(&request(Some("hello"), None, None), None).ok().unwrap();
    let o = finish_translation(
        &mut lb,
        &p,
        &used,
        AttemptOutcome::Reply { status: 200, latency_ms: 80, data: DataField::Text("你好".to_string()) },
        "2025-01-01T00:00:00".to_string(),
    );
    assert_eq!(o.status, 200);
    assert!(matches!(o.body, ReplyBody::Upstream));
    assert_eq!(o.log.status, "success");
    assert_eq!(o.log.target_chars, 2);
    assert_eq!(o.log.source_chars, 5);
    assert_eq!(o.log.endpoint_name, "ep-0");
    assert_eq!(o.log.latency_ms, Some(80));
    assert!(o.cache_response);
    assert_eq!(o.health.status, "ok");
    assert_eq!(lb.status()[0].total_successes, 1);

    let mut cache = TranslationCache::new(true, 3600, 100, 0, "2025-01-01".to_string());
    remember_response(&mut cache, &p, &o, Value::from("你好"));
    assert!(cache.get("hello", "EN", "ZH", "2025-01-01T00:00:01").is_some());
}

#[test]
fn finishing_upstream_and_connection_errors() {
    let mut lb = LoadBalancer::new(endpoints(1), 3);
    let used = lb.select().unwrap();
    let p = prepare_translation(&request(Some("hello"), None, None), None).ok().unwrap();
    let o = finish_translation(
        &mut lb,
        &p,
        &used,
        AttemptOutcome::Reply { status: 429, latency_ms: 10, data: DataField::Other },
        "t".to_string(),
    );
    assert_eq!(o.status, 429);
    assert_eq!(o.log.status, "error");
    assert_eq!(o.log.error_msg.as_deref(), Some("Upstream error 429"));
    assert!(!o.cache_response);
    assert_eq!(o.health.error.as_deref(), Some("Upstream error 429"));

    let o = finish_translation(
        &mut lb,
        &p,
        &used,
        AttemptOutcome::ConnectionError { message: "refused".to_string() },
        "t".to_string(),
    );
    assert_eq!(o.status, 502);
    assert!(matches!(o.body, ReplyBody::Error { ref message } if message == "Connection error: refused"));
    assert_eq!(o.log.latency_ms, None);
    assert_eq!(o.health.latency_ms, Some(0));
    let mut cache = TranslationCache::new(true, 3600, 100, 0, "2025-01-01".to_string());
    remember_response(&mut cache, &p, &o, Value::from("x"));
    assert!(cache.get("hello", "EN", "ZH", "2025-01-01T00:00:01").is_none());
}

#[test]
fn bearer_header() {
    assert_eq!(authorization_header(""), None);
    assert_eq!(authorization_header("abc").as_deref(), Some("Bearer abc"));
}

#[test]
fn a_request_is_sent_at_most_twice() {
    let mut lb = LoadBalancer::new(endpoints(3), 3);
    let first = lb.select().unwrap();
    let down = AttemptOutcome::ConnectionError { message: "refused".to_string() };
    let next = match after_attempt(&mut lb, false, &first, &down) {
        NextStep::Retry(ep) => ep,
        NextStep::Finish => panic!("expected a retry"),
    };
    assert_ne!(next.index(), first.index());
    assert!(matches!(after_attempt(&mut lb, true, &next, &down), NextStep::Finish));
    let status = lb.status();
    assert_eq!(status[first.index()].last_error.as_deref(), Some("refused"));
    assert_eq!(status[next.index()].consecutive_failures, 1);

    let reply = AttemptOutcome::Reply { status: 500, latency_ms: 3, data: DataField::Other };
    assert!(matches!(after_attempt(&mut lb, false, &first, &reply), NextStep::Finish));

    let mut single = LoadBalancer::new(endpoints(1), 3);
    let only = single.select().unwrap();
    assert!(matches!(after_attempt(&mut single, false, &only, &down), NextStep::Finish));
}
