use deeplx_monitor::assets::{asset_path, cache_control_for, file_headers, not_found_text, spa_candidate};
use deeplx_monitor::clock::format_local_time;
use deeplx_monitor::schema::{
    anchor_needs_rebuild, anchor_needs_seeding, anchor_needs_success_totals, has_column, log_column_migrations,
};
use deeplx_monitor::state::HealthStatus;
use deeplx_monitor::proxy::resolve_source_lang;
use deeplx_monitor::text::{char_count, i64_text, text_eq_ignore_ascii_case, to_hex_lower, u64_text};
use deeplx_monitor::upstream::{reply_check_failure, reply_probe_outcome, ProbeOutcome};

fn strings(v: &[&str]) -> Vec<String> {
    v.iter().map(|s| s.to_string()).collect()
}

#[test]
fn local_time_format() {
    assert_eq!(format_local_time(125, 4, 29, 14, 30, 0), "2025-05-29T14:30:00");
    assert_eq!(format_local_time(124, 11, 31, 23, 59, 59), "2024-12-31T23:59:59");
    assert_eq!(format_local_time(-1895, 0, 1, 0, 0, 5), "0005-01-01T00:00:05");
    assert_eq!(format_local_time(-1905, 0, 1, 0, 0, 0), "-005-01-01T00:00:00");
    let t = format_local_time(125, 0, 1, 0, 0, 0);
    assert_eq!(t.len(), 19);
}

#[test]
fn assets_paths_and_headers() {
    assert_eq!(cache_control_for("index.html"), "no-cache, must-revalidate");
    assert_eq!(cache_control_for("app.123.js"), "public, max-age=31536000, immutable");
    assert_eq!(file_headers("app.js").0, "text/javascript");
    assert_eq!(file_headers("style.css").0, "text/css");
    assert_eq!(file_headers("index.html"), ("text/html".to_string(), "no-cache, must-revalidate"));
    assert_eq!(file_headers("blob").0, "application/octet-stream");
    assert_eq!(spa_candidate("/favicon.svg").as_deref(), Some("favicon.svg"));
    assert_eq!(spa_candidate("//a/b.png").as_deref(), Some("a/b.png"));
    assert_eq!(spa_candidate("/dashboard"), None);
    assert_eq!(spa_candidate("/"), None);
    assert_eq!(asset_path("x.js"), "assets/x.js");
    assert_eq!(not_found_text("x.js"), "x.js not found");
}

#[test]
fn migrations_from_columns() {
    let cols = strings(&["id", "chars", "source_lang", "target_lang", "status", "error_msg", "created_at"]);
    assert!(has_column(&cols, "chars"));
    assert!(!has_column(&cols, "latency_ms"));
    let stmts = log_column_migrations(&cols);
    assert_eq!(stmts.len(), 4);
    assert_eq!(stmts[0], "ALTER TABLE translation_logs ADD COLUMN source_chars INTEGER NOT NULL DEFAULT chars");
    assert_eq!(stmts[3], "ALTER TABLE translation_logs ADD COLUMN latency_ms INTEGER");
    let cols = strings(&["id", "source_chars", "target_chars", "endpoint_name"]);
    assert_eq!(log_column_migrations(&cols), strings(&["ALTER TABLE translation_logs ADD COLUMN latency_ms INTEGER"]));
    assert!(!anchor_needs_rebuild(&cols));
    assert!(anchor_needs_rebuild(&strings(&["id", "total_requests"])));
    assert!(anchor_needs_success_totals(&cols));
    assert!(!anchor_needs_success_totals(&strings(&["total_successes"])));
    assert!(anchor_needs_seeding(0, 3));
    assert!(!anchor_needs_seeding(0, 0));
    assert!(!anchor_needs_seeding(5, 3));
}

#[test]
fn text_helpers() {
    assert_eq!(u64_text(0), "0");
    assert_eq!(u64_text(18446744073709551615), "18446744073709551615");
    assert_eq!(i64_text(-9223372036854775808), "-9223372036854775808");
    assert_eq!(i64_text(42), "42");
    assert_eq!(to_hex_lower(&[0, 15, 171, 255]), "000fabff");
    assert_eq!(resolve_source_lang(Some("straße"), "x"), "STRASSE");
    assert!(text_eq_ignore_ascii_case("AuTo", "auto"));
    assert!(!text_eq_ignore_ascii_case("autos", "auto"));
    assert_eq!(char_count("你好"), 2);
}

#[test]
fn reply_statuses() {
    assert!(matches!(reply_probe_outcome(204, 9), ProbeOutcome::Reachable { latency_ms: 9 }));
    assert!(matches!(reply_probe_outcome(503, 9), ProbeOutcome::Failed { ref error } if error == "HTTP 503"));
    assert_eq!(reply_check_failure(200), None);
    assert_eq!(reply_check_failure(404).as_deref(), Some("HTTP 404"));
}

#[test]
fn health_status_default_is_unknown() {
    let h = HealthStatus::default();
    assert_eq!(h.status, "unknown");
    assert!(h.latency_ms.is_none() && h.checked_at.is_none() && h.error.is_none());
    let d = h.duplicate();
    assert_eq!(d.status, "unknown");
}

#[test]
fn test_chrono_now_format() {
    let now = format_local_time(124, 0, 5, 3, 4, 9);
    assert_eq!(now.len(), 19);
    assert_eq!(&now[4..5], "-");
    assert_eq!(&now[7..8], "-");
    assert_eq!(&now[10..11], "T");
    assert_eq!(&now[13..14], ":");
    assert_eq!(&now[16..17], ":");
    assert_eq!(now, "2024-01-05T03:04:09");
}

#[test]
fn test_chrono_now_valid_date() {
    let now = format_local_time(125, 11, 31, 23, 59, 59);
    let year: u32 = now[0..4].parse().unwrap();
    let month: u32 = now[5..7].parse().unwrap();
    let day: u32 = now[8..10].parse().unwrap();
    let hour: u32 = now[11..13].parse().unwrap();
    let minute: u32 = now[14..16].parse().unwrap();
    let second: u32 = now[17..19].parse().unwrap();

    assert!(year >= 2024);
    assert!((1..=12).contains(&month));
    assert!((1..=31).contains(&day));
    assert!(hour < 24);
    assert!(minute < 60);
    assert!(second < 60);
    assert_eq!((year, month, day, hour, minute, second), (2025, 12, 31, 23, 59, 59));
}
