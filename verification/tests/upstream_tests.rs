use deeplx_monitor::config::EndpointConfig;
use deeplx_monitor::upstream::{LoadBalancer, ProbeOutcome, SelectedEndpoint};

fn make_endpoints(n: usize) -> Vec<EndpointConfig> {
    (0..n)
        .map(|i| EndpointConfig {
            name: format!("ep-{}", i),
            url: format!("http://localhost:800{}/translate", i),
            api_key: format!("key-{}", i),
        })
        .collect()
}

fn bare(index: usize) -> SelectedEndpoint {
    SelectedEndpoint::new(String::new(), String::new(), index, String::new())
}

#[test]
fn test_select_round_robin() {
    let mut lb = LoadBalancer::new(make_endpoints(3), 3);

    let ep0 = lb.select().unwrap();
    let ep1 = lb.select().unwrap();
    let ep2 = lb.select().unwrap();
    let ep3 = lb.select().unwrap();

    assert_eq!(ep0.index(), 0);
    assert_eq!(ep1.index(), 1);
    assert_eq!(ep2.index(), 2);
    assert_eq!(ep3.index(), 0);
}

#[test]
fn test_select_skips_unhealthy() {
    let mut lb = LoadBalancer::new(make_endpoints(3), 2);

    let ep = lb.select().unwrap();
    assert_eq!(ep.index(), 0);
    lb.report_failure(&ep, "error1");
    lb.report_failure(&ep, "error2");

    let ep = lb.select().unwrap();
    assert_ne!(ep.index(), 0, "不健康端点应被跳过");
}

#[test]
fn test_all_unhealthy_falls_back() {
    let mut lb = LoadBalancer::new(make_endpoints(2), 1);

    let ep0 = bare(0);
    let ep1 = bare(1);
    lb.report_failure(&ep0, "err");
    lb.report_failure(&ep1, "err");

    let result = lb.select();
    assert!(result.is_some(), "所有端点不健康时应 fallback");
}

#[test]
fn test_report_success_resets_failures() {
    let mut lb = LoadBalancer::new(make_endpoints(2), 3);

    let ep = bare(0);
    lb.report_failure(&ep, "err1");
    lb.report_failure(&ep, "err2");
    lb.report_success(&ep, 100);

    let status = lb.status();
    assert!(status[0].healthy);
    assert_eq!(status[0].consecutive_failures, 0);
}

#[test]
fn test_select_excluding() {
    let lb = LoadBalancer::new(make_endpoints(3), 3);

    let result = lb.select_excluding(0);
    assert!(result.is_some());
    assert_ne!(result.unwrap().index(), 0);
}

#[test]
fn test_select_excluding_single_endpoint() {
    let lb = LoadBalancer::new(make_endpoints(1), 3);
    let result = lb.select_excluding(0);
    assert!(result.is_none(), "单端点时排除后应返回 None");
}

#[test]
fn test_empty_endpoints() {
    let mut lb = LoadBalancer::new(vec![], 3);
    let result = lb.select();
    assert!(result.is_none());
}

#[test]
fn test_reload_resets_state() {
    let mut lb = LoadBalancer::new(make_endpoints(2), 3);

    let ep = bare(0);
    lb.report_failure(&ep, "err");
    lb.report_failure(&ep, "err");
    lb.report_failure(&ep, "err");

    lb.reload(make_endpoints(2), 3);
    let status = lb.status();
    assert!(status[0].healthy);
    assert!(status[1].healthy);
}

#[test]
fn test_status_avg_latency() {
    let mut lb = LoadBalancer::new(make_endpoints(1), 3);

    let ep = bare(0);
    lb.report_success(&ep, 100);
    lb.report_success(&ep, 200);
    lb.report_success(&ep, 300);

    let status = lb.status();
    assert_eq!(status[0].avg_latency_ms, 200);
    assert_eq!(status[0].total_requests, 3);
    assert_eq!(status[0].total_successes, 3);
}

#[test]
fn test_last_known_good_fallback() {
    let mut lb = LoadBalancer::new(make_endpoints(3), 1);

    let ep1 = bare(1);
    lb.report_success(&ep1, 50);

    let ep0 = bare(0);
    let ep2 = bare(2);
    lb.report_failure(&ep0, "err");
    lb.report_failure(&ep1, "err");
    lb.report_failure(&ep2, "err");

    let selected = lb.select().unwrap();
    assert_eq!(selected.index(), 1, "应 fallback 到 last-known-good");
}

#[test]
fn selection_carries_endpoint_details() {
    let mut lb = LoadBalancer::new(make_endpoints(2), 3);
    let ep = lb.select().unwrap();
    assert_eq!(ep.url(), "http://localhost:8000/translate");
    assert_eq!(ep.api_key(), "key-0");
    assert_eq!(ep.name(), "ep-0");
}

#[test]
fn failure_counts_and_last_error_are_reported() {
    let mut lb = LoadBalancer::new(make_endpoints(1), 3);
    let ep = bare(0);
    lb.report_failure(&ep, "boom");
    let status = lb.status();
    assert_eq!(status[0].consecutive_failures, 1);
    assert_eq!(status[0].total_requests, 1);
    assert_eq!(status[0].total_successes, 0);
    assert_eq!(status[0].avg_latency_ms, 0);
    assert_eq!(status[0].last_error.as_deref(), Some("boom"));
    assert!(status[0].healthy);
}

#[test]
fn probe_results_apply_only_to_current_generation() {
    let mut lb = LoadBalancer::new(make_endpoints(2), 1);
    let g = lb.generation();
    lb.record_probe(g, 0, "2025-01-01T00:00:00".to_string(), ProbeOutcome::Failed { error: "down".to_string() });
    assert!(!lb.status()[0].healthy);
    lb.reload(make_endpoints(2), 1);
    assert_eq!(lb.generation(), g + 1);
    lb.record_probe(g, 1, "2025-01-01T00:00:05".to_string(), ProbeOutcome::Failed { error: "stale".to_string() });
    assert!(lb.status()[1].healthy);
    lb.record_probe(g + 1, 1, "2025-01-01T00:00:06".to_string(), ProbeOutcome::Reachable { latency_ms: 40 });
    let status = lb.status();
    assert_eq!(status[1].last_check_at.as_deref(), Some("2025-01-01T00:00:06"));
    assert_eq!(status[1].avg_latency_ms, 40);
}

#[test]
fn manual_check_marks_failure_and_success() {
    let mut lb = LoadBalancer::new(make_endpoints(2), 3);
    let g = lb.generation();
    let targets = lb.snapshot();
    assert_eq!(targets.len(), 2);
    let r = lb.record_check(g, &targets[0], "t1".to_string(), 12, Some("HTTP 500".to_string()));
    assert!(!r.ok);
    assert_eq!(r.name, "ep-0");
    assert_eq!(r.error.as_deref(), Some("HTTP 500"));
    assert!(!lb.status()[0].healthy);
    let r = lb.record_check(g, &targets[1], "t2".to_string(), 30, None);
    assert!(r.ok);
    assert_eq!(r.latency_ms, 30);
    assert!(lb.status()[1].healthy);
}

#[test]
fn restore_and_find_by_name() {
    let mut lb = LoadBalancer::new(make_endpoints(2), 3);
    lb.restore_stats(&[("ep-1".to_string(), 10, 8, 800), ("missing".to_string(), 1, 1, 1)]);
    let status = lb.status();
    assert_eq!(status[1].total_requests, 10);
    assert_eq!(status[1].avg_latency_ms, 100);
    assert_eq!(status[0].total_requests, 0);
    assert_eq!(lb.find_by_name("ep-1").unwrap().index(), 1);
    assert!(lb.find_by_name("nope").is_none());
}

#[test]
fn demo_stats_fill_profiles() {
    let mut lb = LoadBalancer::new(make_endpoints(3), 3);
    lb.seed_demo_stats();
    let status = lb.status();
    assert_eq!(status[0].total_requests, 1248);
    assert_eq!(status[0].avg_latency_ms, 312_000 / 1241);
    assert!(!status[2].healthy);
    assert_eq!(status[2].last_error.as_deref(), Some("Connection timeout (demo)"));
    assert_eq!(lb.endpoint_count(), 3);
}
