use deeplx_monitor::api::{
    clamp_page_size, config_info, endpoint_filter, export_csv, export_is_csv, plan_chart, plan_error_trend,
    plan_heatmap, plan_lang_series, plan_lang_stats, plan_requests, plan_stats, plan_timeline, stats_period_days,
    summarize_health, ChartQuery, ErrorTrendQuery, ExportQuery, HeatmapQuery, LangHourlyStatsQuery, LangSeries,
    LangStatsQuery, RequestsQuery, StatsQuery, TimelineQuery, TotalSource,
};
use deeplx_monitor::config::{Config, EndpointConfig};
use deeplx_monitor::db::RequestLog;
use deeplx_monitor::upstream::EndpointHealthCheckResult;

#[test]
fn test_page_size_clamp_allows_small_values() {
    let test_cases: Vec<(u32, u32)> = vec![
        (1, 1),
        (10, 10),
        (20, 20),
        (50, 50),
        (100, 100),
        (200, 200),
        (300, 200),
        (0, 1),
    ];

    for (input, expected) in test_cases {
        let result = clamp_page_size(input);
        assert_eq!(result, expected, "page_size={} 应为 {}，实际为 {}", input, expected, result);
    }
}

#[test]
fn requests_plan_defaults_and_filters() {
    let p = plan_requests(&RequestsQuery { page: None, page_size: None, endpoint: Some(String::new()), status: None });
    assert_eq!((p.page, p.page_size), (1, 50));
    assert!(p.endpoint.is_none());
    let p = plan_requests(&RequestsQuery {
        page: Some(0),
        page_size: Some(500),
        endpoint: Some("ep".to_string()),
        status: Some("error".to_string()),
    });
    assert_eq!((p.page, p.page_size), (1, 200));
    assert_eq!(p.endpoint.as_deref(), Some("ep"));
    assert_eq!(p.status.as_deref(), Some("error"));
}

#[test]
fn stats_plan_picks_total_source() {
    assert_eq!(stats_period_days(), (1, 7, 30));
    let p = plan_stats(&StatsQuery { days: Some(3), endpoint: Some("ep".to_string()) });
    assert!(matches!(p.total, TotalSource::Period(3)));
    let p = plan_stats(&StatsQuery { days: None, endpoint: Some("ep".to_string()) });
    assert!(matches!(p.total, TotalSource::Endpoint(ref e) if e == "ep"));
    let p = plan_stats(&StatsQuery { days: None, endpoint: Some(String::new()) });
    assert!(matches!(p.total, TotalSource::Global));
    assert!(p.endpoint.is_none());
}

#[test]
fn chart_and_timeline_defaults() {
    let (ep, hours, days) = plan_chart(&ChartQuery { endpoint: None, days: None });
    assert!(ep.is_none());
    assert_eq!((hours, days), (24, 30));
    assert_eq!(plan_timeline(&TimelineQuery { days: None }), 7);
    assert_eq!(plan_timeline(&TimelineQuery { days: Some(14) }), 14);
    let (ep, days) = plan_lang_stats(&LangStatsQuery { days: Some(5), endpoint: Some("x".to_string()) });
    assert_eq!(ep.as_deref(), Some("x"));
    assert_eq!(days, Some(5));
    assert_eq!(endpoint_filter(&Some(String::new())), None);
}

#[test]
fn lang_series_hourly_or_daily() {
    assert_eq!(plan_lang_series(&LangHourlyStatsQuery { days: None }), LangSeries::Hourly);
    assert_eq!(plan_lang_series(&LangHourlyStatsQuery { days: Some(1) }), LangSeries::Hourly);
    assert_eq!(plan_lang_series(&LangHourlyStatsQuery { days: Some(7) }), LangSeries::Daily(7));
}

#[test]
fn heatmap_and_error_trend_plans() {
    let p = plan_heatmap(&HeatmapQuery { view: None, days: None, endpoint: None });
    assert_eq!(p.view, "weekday");
    assert!(!p.by_date);
    assert_eq!(p.days, 30);
    let p = plan_heatmap(&HeatmapQuery { view: Some("date".to_string()), days: Some(90), endpoint: None });
    assert!(p.by_date);
    assert_eq!(plan_error_trend(&ErrorTrendQuery { days: None, granularity: None, endpoint: None }).0, 7);
    assert!(!plan_error_trend(&ErrorTrendQuery { days: None, granularity: None, endpoint: None }).1);
    assert!(plan_error_trend(&ErrorTrendQuery { days: Some(2), granularity: None, endpoint: None }).1);
    assert!(plan_error_trend(&ErrorTrendQuery {
        days: Some(30),
        granularity: Some("hourly".to_string()),
        endpoint: None
    })
    .1);
    assert!(!plan_error_trend(&ErrorTrendQuery {
        days: Some(1),
        granularity: Some("daily".to_string()),
        endpoint: None
    })
    .1);
}

#[test]
fn export_format_and_csv() {
    let q = |f: Option<&str>| ExportQuery { format: f.map(|s| s.to_string()), start: None, end: None, lang: None, status: None };
    assert!(export_is_csv(&q(Some("csv"))));
    assert!(!export_is_csv(&q(Some("json"))));
    assert!(!export_is_csv(&q(None)));

    let logs = vec![RequestLog {
        id: 7,
        chars: 5,
        source_lang: "EN".to_string(),
        target_lang: "ZH".to_string(),
        source_chars: 5,
        target_chars: -2,
        status: "error".to_string(),
        error_msg: Some("bad, \"quoted\"".to_string()),
        created_at: "2025-05-29 14:30:00".to_string(),
        endpoint_name: None,
        latency_ms: None,
    }];
    let bytes = export_csv(&logs);
    let text = String::from_utf8(bytes).unwrap();
    assert_eq!(
        text,
        "id,source_lang,target_lang,source_chars,target_chars,status,error_msg,created_at\n\
         7,EN,ZH,5,-2,error,\"bad, \"\"quoted\"\"\",2025-05-29 14:30:00\n"
    );
    let empty = export_csv(&vec![]);
    assert_eq!(
        String::from_utf8(empty).unwrap(),
        "id,source_lang,target_lang,source_chars,target_chars,status,error_msg,created_at\n"
    );
}

#[test]
fn health_summary_cases() {
    let none = summarize_health(&vec![], "t0".to_string());
    assert_eq!(none.status, "error");
    assert_eq!(none.error.as_deref(), Some("No upstream endpoints configured"));
    assert_eq!(none.checked_at.as_deref(), Some("t0"));

    let r = |ok: bool, lat: u64, err: Option<&str>| EndpointHealthCheckResult {
        name: "n".to_string(),
        ok,
        latency_ms: lat,
        error: err.map(|s| s.to_string()),
    };
    let ok = summarize_health(&vec![r(false, 5, Some("x")), r(true, 90, None), r(true, 40, None)], "t1".to_string());
    assert_eq!(ok.status, "ok");
    assert_eq!(ok.latency_ms, Some(40));
    assert!(ok.error.is_none());

    let bad = summarize_health(&vec![r(false, 12, None), r(false, 30, Some("y"))], "t2".to_string());
    assert_eq!(bad.status, "error");
    assert_eq!(bad.latency_ms, Some(12));
    assert_eq!(bad.error.as_deref(), Some("Unknown error"));
}

#[test]
fn config_info_uses_first_endpoint() {
    let mut config = Config::default();
    let info = config_info(&config);
    assert_eq!(info.upstream_url, "");
    assert_eq!(info.probe_interval_secs, 60);
    config.upstream.endpoints.push(EndpointConfig {
        name: "a".to_string(),
        url: "http://a".to_string(),
        api_key: "k".to_string(),
    });
    let info = config_info(&config);
    assert_eq!(info.upstream_url, "http://a");
    assert_eq!(info.api_key, "k");
}
