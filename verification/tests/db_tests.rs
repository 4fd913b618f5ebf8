use deeplx_monitor::db::{
    demo_base_error_pct, demo_cache_split, demo_endpoint_index, demo_endpoint_profile, demo_error_message,
    demo_history_outcome, demo_hour_weight, demo_pair_index, demo_pair_profile, demo_today_outcome, export_query,
    hourly_increment, join_strings, page_offset, requests_queries, weekday_name, HourlyIncrement, SimpleRng,
};

#[test]
fn hourly_increments() {
    assert_eq!(
        hourly_increment("success", Some(120)),
        HourlyIncrement { success: 1, error: 0, latency_sum: 120, latency_count: 1 }
    );
    assert_eq!(
        hourly_increment("success", None),
        HourlyIncrement { success: 1, error: 0, latency_sum: 0, latency_count: 0 }
    );
    assert_eq!(
        hourly_increment("error", Some(50)),
        HourlyIncrement { success: 0, error: 1, latency_sum: 0, latency_count: 0 }
    );
    assert_eq!(
        hourly_increment("timeout", Some(50)),
        HourlyIncrement { success: 0, error: 0, latency_sum: 0, latency_count: 0 }
    );
}

#[test]
fn weekday_names_and_offsets() {
    assert_eq!(weekday_name(0), "周日");
    assert_eq!(weekday_name(3), "周三");
    assert_eq!(weekday_name(6), "周六");
    assert_eq!(page_offset(1, 50), 0);
    assert_eq!(page_offset(3, 20), 40);
}

#[test]
fn paged_queries() {
    let (count, page, params) = requests_queries(None, Some(""));
    assert_eq!(count, "SELECT COUNT(*) FROM translation_logs");
    assert!(page.ends_with("FROM translation_logs ORDER BY id DESC LIMIT ? OFFSET ?"));
    assert!(params.is_empty());
    let (count, _, params) = requests_queries(Some("ep1"), Some("error"));
    assert_eq!(count, "SELECT COUNT(*) FROM translation_logs WHERE endpoint_name = ? AND status = ?");
    assert_eq!(params, vec!["ep1".to_string(), "error".to_string()]);
    let (count, _, params) = requests_queries(None, Some("success"));
    assert_eq!(count, "SELECT COUNT(*) FROM translation_logs WHERE status = ?");
    assert_eq!(params, vec!["success".to_string()]);
}

#[test]
fn export_queries() {
    let (sql, params) = export_query(None, None, Some("JA"), None);
    assert_eq!(
        sql,
        "SELECT id, chars, source_lang, target_lang, source_chars, target_chars, status, error_msg, created_at FROM translation_logs WHERE (source_lang = ?1 OR target_lang = ?1) ORDER BY id DESC LIMIT 10000"
    );
    assert_eq!(params, vec!["JA".to_string()]);
    let (sql, params) = export_query(Some("2025-01-01"), None, None, Some("error"));
    assert!(sql.contains("WHERE created_at >= ?1 AND status = ?2 ORDER BY"));
    assert_eq!(params.len(), 2);
    let (sql, params) = export_query(None, None, None, None);
    assert!(sql.ends_with("FROM translation_logs  ORDER BY id DESC LIMIT 10000"));
    assert!(params.is_empty());
    assert_eq!(join_strings(&vec!["a".to_string(), "b".to_string(), "c".to_string()], ", "), "a, b, c");
}

#[test]
fn rng_is_deterministic() {
    let mut a = SimpleRng::new(0);
    let mut b = SimpleRng::new(1);
    assert_eq!(a.next_u64(), b.next_u64());
    let mut r = SimpleRng::new(1);
    assert_eq!(r.next_u64(), 6364136223846793005u64.wrapping_add(1));
    let mut r = SimpleRng::new(42);
    let first = r.next_usize(100);
    let mut again = SimpleRng::new(42);
    assert_eq!(again.next_usize(100), first);
    assert!(first < 100);
}

#[test]
fn demo_profiles_and_draws() {
    assert_eq!(demo_endpoint_profile(0), (180, 120, 1));
    assert_eq!(demo_endpoint_profile(4), (350, 200, 2));
    assert_eq!(demo_endpoint_profile(5), (500, 300, 3));
    assert_eq!(demo_base_error_pct(10), 5);
    assert_eq!(demo_base_error_pct(3), 1);
    assert_eq!(demo_base_error_pct(20), 3);
    assert_eq!(demo_hour_weight(9), 15);
    assert_eq!(demo_hour_weight(0), 2);
    assert_eq!(demo_pair_profile(0), ("EN", "ZH", 60, 800));
    assert_eq!(demo_pair_profile(9), ("ZH", "JA", 30, 400));
    assert_eq!(demo_error_message(0), "Upstream timeout after 10s");
    assert_eq!(demo_cache_split(100), (35, 65));
    assert_eq!(demo_cache_split(7), (2, 5));

    let mut rng = SimpleRng::new(20260511);
    for _ in 0..200 {
        assert!(demo_pair_index(&mut rng) < 10);
        assert!(demo_endpoint_index(&mut rng, 3) < 3);
    }
    let mut rng = SimpleRng::new(5);
    let mut untouched = SimpleRng::new(5);
    assert_eq!(demo_endpoint_index(&mut rng, 1), 0);
    assert_eq!(rng.next_u64(), untouched.next_u64());
}

#[test]
fn demo_outcomes_follow_the_draws() {
    let mut errors = 0;
    let mut rng = SimpleRng::new(9);
    for _ in 0..1000 {
        let o = demo_history_outcome(&mut rng, 10, 3, 400);
        if o.is_error {
            errors += 1;
            assert!(o.error_index < 6);
            if o.error_index == 0 {
                assert_eq!(o.latency_ms, 10000);
            } else {
                assert!(o.latency_ms >= 2400 && o.latency_ms < 5400);
            }
        } else {
            assert_eq!(o.latency_ms, 400);
        }
    }
    assert!(errors > 0 && errors < 1000);
    let mut rng = SimpleRng::new(9);
    for _ in 0..100 {
        let o = demo_today_outcome(&mut rng, 300);
        assert_eq!(o.latency_ms, if o.is_error { 5300 } else { 300 });
    }
}
