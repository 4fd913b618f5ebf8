//! The decisions behind the dashboard API: how each query's parameters
//! default and select what is read, what the configuration looks like on
//! the wire and how an update merges into it, how manual health checks sum
//! up, and the CSV export format.

use vstd::prelude::*;

use crate::config::{
    Config, EndpointConfig,
};
use crate::db::RequestLog;
use crate::state::HealthStatus;
use crate::text::{decimal_text, i64_text};
use crate::upstream::{opt_text, EndpointHealthCheckResult};

verus! {

// ----- configuration on the wire -----

/// One endpoint as shown and edited on the dashboard.
#[derive(Debug)]
pub struct EndpointInfo {
    pub name: String,
    pub url: String,
    pub api_key: String,
}

#[derive(Debug)]
pub struct UpstreamInfo {
    pub endpoints: Vec<EndpointInfo>,
    pub max_failures: u32,
    pub probe_interval_secs: u64,
}

#[derive(Debug)]
pub struct ProxyInfo {
    pub host: String,
    pub port: u16,
}

#[derive(Debug)]
pub struct MonitorInfo {
    pub auto_refresh_seconds: u64,
    pub log_retention_days: u32,
}

#[derive(Debug)]
pub struct HealthCheckInfo {
    pub source_lang: String,
    pub target_lang: String,
}

#[derive(Debug)]
pub struct CacheInfo {
    pub enabled: bool,
    pub ttl_secs: u64,
    pub max_entries: u64,
    pub max_memory_mb: u64,
}

#[derive(Debug)]
pub struct DemoInfo {
    pub enabled: bool,
    pub seed: u64,
}

/// The whole configuration as the dashboard sees it.
#[derive(Debug)]
pub struct FullConfigInfo {
    pub upstream: UpstreamInfo,
    pub proxy: ProxyInfo,
    pub monitor: MonitorInfo,
    pub health_check: HealthCheckInfo,
    pub cache: CacheInfo,
    pub demo: DemoInfo,
}

/// A partial configuration update: each section given replaces the
/// corresponding section.
#[derive(Debug)]
pub struct UpdateFullConfigPayload {
    pub upstream: Option<UpstreamInfo>,
    pub proxy: Option<ProxyInfo>,
    pub monitor: Option<MonitorInfo>,
    pub health_check: Option<HealthCheckInfo>,
    pub cache: Option<CacheInfo>,
    pub demo: Option<DemoInfo>,
}

pub open spec fn endpoint_info_matches(i: EndpointInfo, c: EndpointConfig) -> bool {
    i.name@ == c.name@ && i.url@ == c.url@ && i.api_key@ == c.api_key@
}

pub open spec fn upstream_info_matches(i: UpstreamInfo, c: crate::config::UpstreamConfig) -> bool {
    &&& i.endpoints@.len() == c.endpoints@.len()
    &&& forall|k: int| 0 <= k < i.endpoints@.len() ==> endpoint_info_matches(#[trigger] i.endpoints@[k], c.endpoints@[k])
    &&& i.max_failures == c.max_failures
    &&& i.probe_interval_secs == c.probe_interval_secs
}

pub open spec fn proxy_info_matches(i: ProxyInfo, c: crate::config::ProxyConfig) -> bool {
    i.host@ == c.host@ && i.port == c.port
}

pub open spec fn monitor_info_matches(i: MonitorInfo, c: crate::config::MonitorConfig) -> bool {
    i.auto_refresh_seconds == c.auto_refresh_seconds && i.log_retention_days == c.log_retention_days
}

pub open spec fn health_check_info_matches(i: HealthCheckInfo, c: crate::config::HealthCheckConfig) -> bool {
    i.source_lang@ == c.source_lang@ && i.target_lang@ == c.target_lang@
}

pub open spec fn cache_info_matches(i: CacheInfo, c: crate::config::CacheConfig) -> bool {
    i.enabled == c.enabled && i.ttl_secs == c.ttl_secs && i.max_entries == c.max_entries && i.max_memory_mb
        == c.max_memory_mb
}

pub open spec fn demo_info_matches(i: DemoInfo, c: crate::config::DemoConfig) -> bool {
    i.enabled == c.enabled && i.seed == c.seed
}

/// Whether the dashboard's view of the configuration shows `c` exactly.
pub open spec fn info_matches(i: FullConfigInfo, c: Config) -> bool {
    &&& upstream_info_matches(i.upstream, c.upstream)
    &&& proxy_info_matches(i.proxy, c.proxy)
    &&& monitor_info_matches(i.monitor, c.monitor)
    &&& health_check_info_matches(i.health_check, c.health_check)
    &&& cache_info_matches(i.cache, c.cache)
    &&& demo_info_matches(i.demo, c.demo)
}

/// The dashboard's view of a configuration.
pub fn config_to_full_info(config: &Config) -> (info: FullConfigInfo)
    ensures
        info_matches(info, *config),
{
    let mut endpoints: Vec<EndpointInfo> = Vec::new();
    let n = config.upstream.endpoints.len();
    for k in 0..n
        invariant
            n == config.upstream.endpoints@.len(),
            endpoints@.len() == k,
            forall|j: int| 0 <= j < k ==> endpoint_info_matches(#[trigger] endpoints@[j], config.upstream.endpoints@[j]),
    {
        let ep = &config.upstream.endpoints[k];
        endpoints.push(EndpointInfo { name: ep.name.clone(), url: ep.url.clone(), api_key: ep.api_key.clone() });
    }
    FullConfigInfo {
        upstream: UpstreamInfo {
            endpoints,
            max_failures: config.upstream.max_failures,
            probe_interval_secs: config.upstream.probe_interval_secs,
        },
        proxy: ProxyInfo { host: config.proxy.host.clone(), port: config.proxy.port },
        monitor: MonitorInfo {
            auto_refresh_seconds: config.monitor.auto_refresh_seconds,
            log_retention_days: config.monitor.log_retention_days,
        },
        health_check: HealthCheckInfo {
            source_lang: config.health_check.source_lang.clone(),
            target_lang: config.health_check.target_lang.clone(),
        },
        cache: CacheInfo {
            enabled: config.cache.enabled,
            ttl_secs: config.cache.ttl_secs,
            max_entries: config.cache.max_entries,
            max_memory_mb: config.cache.max_memory_mb,
        },
        demo: DemoInfo { enabled: config.demo.enabled, seed: config.demo.seed },
    }
}

/// The configuration after an update: each section present in the payload
/// replaces the section; the others stay as they were.
pub open spec fn updated_config_matches(new: Config, old: Config, p: UpdateFullConfigPayload) -> bool {
    &&& match p.upstream {
        Some(u) => upstream_info_matches(u, new.upstream),
        None => new.upstream == old.upstream,
    }
    &&& match p.proxy {
        Some(x) => proxy_info_matches(x, new.proxy),
        None => new.proxy == old.proxy,
    }
    &&& match p.monitor {
        Some(m) => monitor_info_matches(m, new.monitor),
        None => new.monitor == old.monitor,
    }
    &&& match p.health_check {
        Some(h) => health_check_info_matches(h, new.health_check),
        None => new.health_check == old.health_check,
    }
    &&& match p.cache {
        Some(c) => cache_info_matches(c, new.cache),
        None => new.cache == old.cache,
    }
    &&& match p.demo {
        Some(d) => demo_info_matches(d, new.demo),
        None => new.demo == old.demo,
    }
}

/// Merges a partial update into the configuration.
pub fn apply_config_update(config: &mut Config, payload: UpdateFullConfigPayload)
    ensures
        updated_config_matches(*final(config), *old(config), payload),
{
    let ghost p = payload;
    let UpdateFullConfigPayload { upstream, proxy, monitor, health_check, cache, demo } = payload;
    match upstream {
        Some(u) => {
            let ghost gu = u;
            let UpstreamInfo { endpoints, max_failures, probe_interval_secs } = u;
            let mut converted: Vec<EndpointConfig> = Vec::new();
            let n = endpoints.len();
            for k in 0..n
                invariant
                    n == endpoints@.len(),
                    converted@.len() == k,
                    forall|j: int| 0 <= j < k ==> endpoint_info_matches(endpoints@[j], #[trigger] converted@[j]),
            {
                let ep = &endpoints[k];
                converted.push(EndpointConfig { name: ep.name.clone(), url: ep.url.clone(), api_key: ep.api_key.clone() });
            }
            config.upstream.endpoints = converted;
            config.upstream.max_failures = max_failures;
            config.upstream.probe_interval_secs = probe_interval_secs;
            assert(upstream_info_matches(gu, config.upstream));
        },
        None => {},
    }
    match proxy {
        Some(x) => {
            config.proxy.host = x.host;
            config.proxy.port = x.port;
        },
        None => {},
    }
    match monitor {
        Some(m) => {
            config.monitor.auto_refresh_seconds = m.auto_refresh_seconds;
            config.monitor.log_retention_days = m.log_retention_days;
        },
        None => {},
    }
    match health_check {
        Some(h) => {
            config.health_check.source_lang = h.source_lang;
            config.health_check.target_lang = h.target_lang;
        },
        None => {},
    }
    match cache {
        Some(c) => {
            config.cache.enabled = c.enabled;
            config.cache.ttl_secs = c.ttl_secs;
            config.cache.max_entries = c.max_entries;
            config.cache.max_memory_mb = c.max_memory_mb;
        },
        None => {},
    }
    match demo {
        Some(d) => {
            config.demo.enabled = d.enabled;
            config.demo.seed = d.seed;
        },
        None => {},
    }
}

/// Two dashboard views of the upstream section that show the same thing.
pub open spec fn same_upstream_info(a: UpstreamInfo, b: UpstreamInfo) -> bool {
    &&& a.endpoints@.len() == b.endpoints@.len()
    &&& forall|k: int| 0 <= k < a.endpoints@.len() ==> {
        &&& (#[trigger] a.endpoints@[k]).name@ == b.endpoints@[k].name@
        &&& a.endpoints@[k].url@ == b.endpoints@[k].url@
        &&& a.endpoints@[k].api_key@ == b.endpoints@[k].api_key@
    }
    &&& a.max_failures == b.max_failures
    &&& a.probe_interval_secs == b.probe_interval_secs
}

/// What the dashboard reads back after an update shows every section it
/// sent exactly as sent, and every other section as it was before.
pub proof fn law_update_reads_back(new: Config, old: Config, p: UpdateFullConfigPayload, before: FullConfigInfo, after: FullConfigInfo)
    requires
        updated_config_matches(new, old, p),
        info_matches(before, old),
        info_matches(after, new),
    ensures
        match p.upstream {
            Some(u) => same_upstream_info(after.upstream, u),
            None => same_upstream_info(after.upstream, before.upstream),
        },
        match p.proxy {
            Some(x) => after.proxy.host@ == x.host@ && after.proxy.port == x.port,
            None => after.proxy.host@ == before.proxy.host@ && after.proxy.port == before.proxy.port,
        },
        match p.monitor {
            Some(m) => after.monitor == m,
            None => after.monitor == before.monitor,
        },
        match p.health_check {
            Some(h) => after.health_check.source_lang@ == h.source_lang@ && after.health_check.target_lang@
                == h.target_lang@,
            None => after.health_check.source_lang@ == before.health_check.source_lang@
                && after.health_check.target_lang@ == before.health_check.target_lang@,
        },
        match p.cache {
            Some(c) => after.cache == c,
            None => after.cache == before.cache,
        },
        match p.demo {
            Some(d) => after.demo == d,
            None => after.demo == before.demo,
        },
{
}

} // verus!

verus! {

// ----- manual health checks -----

/// The smallest latency among the successful checks, if any succeeded.
pub open spec fn min_ok_latency(rs: Seq<EndpointHealthCheckResult>) -> Option<u64>
    decreases rs.len(),
{
    if rs.len() == 0 {
        None
    } else {
        let rest = min_ok_latency(rs.drop_last());
        let last = rs.last();
        if !last.ok {
            rest
        } else {
            match rest {
                Some(m) => if last.latency_ms < m {
                    Some(last.latency_ms)
                } else {
                    Some(m)
                },
                None => Some(last.latency_ms),
            }
        }
    }
}

/// The overall health after checking every endpoint at time `now`: an
/// error when nothing is configured; `ok` with the best latency when any
/// endpoint answered; otherwise an error with the first endpoint's latency
/// and error (`Unknown error` when it has none).
pub open spec fn health_summary_matches(h: HealthStatus, rs: Seq<EndpointHealthCheckResult>, now: Seq<char>) -> bool {
    &&& opt_text(h.checked_at) == Some(now)
    &&& if rs.len() == 0 {
        &&& h.status@ == "error"@
        &&& h.latency_ms is None
        &&& opt_text(h.error) == Some("No upstream endpoints configured"@)
    } else if min_ok_latency(rs) is Some {
        &&& h.status@ == "ok"@
        &&& h.latency_ms == min_ok_latency(rs)
        &&& h.error is None
    } else {
        &&& h.status@ == "error"@
        &&& h.latency_ms == Some(rs[0].latency_ms)
        &&& opt_text(h.error) == Some(
            match rs[0].error {
                Some(e) => e@,
                None => "Unknown error"@,
            },
        )
    }
}

/// Sums up the results of checking every endpoint.
pub fn summarize_health(results: &Vec<EndpointHealthCheckResult>, now: String) -> (h: HealthStatus)
    ensures
        health_summary_matches(h, results@, now@),
{
    if results.len() == 0 {
        return HealthStatus {
            status: String::from_str("error"),
            latency_ms: None,
            checked_at: Some(now),
            error: Some(String::from_str("No upstream endpoints configured")),
        };
    }
    let mut best: Option<u64> = None;
    let n = results.len();
    for k in 0..n
        invariant
            n == results@.len(),
            best == min_ok_latency(results@.take(k as int)),
    {
        assert(results@.take(k + 1).drop_last() =~= results@.take(k as int));
        let r = &results[k];
        if r.ok {
            best = match best {
                Some(m) => if r.latency_ms < m {
                    Some(r.latency_ms)
                } else {
                    Some(m)
                },
                None => Some(r.latency_ms),
            };
        }
    }
    assert(results@.take(n as int) =~= results@);
    match best {
        Some(m) => HealthStatus {
            status: String::from_str("ok"),
            latency_ms: Some(m),
            checked_at: Some(now),
            error: None,
        },
        None => {
            let first = &results[0];
            let err = match &first.error {
                Some(e) => e.clone(),
                None => String::from_str("Unknown error"),
            };
            HealthStatus {
                status: String::from_str("error"),
                latency_ms: Some(first.latency_ms),
                checked_at: Some(now),
                error: Some(err),
            }
        },
    }
}

// ----- query parameters -----

/// An endpoint filter: a missing or empty name means no filter.
pub open spec fn endpoint_filter_of(e: Option<String>) -> Option<Seq<char>> {
    match e {
        Some(s) => if s@.len() > 0 { Some(s@) } else { None },
        None => None,
    }
}

/// The endpoint filter of a query.
pub fn endpoint_filter(e: &Option<String>) -> (res: Option<String>)
    ensures
        opt_text(res) == endpoint_filter_of(*e),
{
    match e {
        Some(s) => if s.as_str().is_empty() {
            None
        } else {
            Some(s.clone())
        },
        None => None,
    }
}

/// `GET /api/stats` parameters.
#[derive(Debug)]
pub struct StatsQuery {
    /// When given, the total covers only the last `days` days.
    pub days: Option<u32>,
    /// When given (non-empty), only this endpoint is counted.
    pub endpoint: Option<String>,
}

/// Where the overall totals of `/api/stats` come from.
#[derive(Debug)]
pub enum TotalSource {
    /// The hourly aggregates of the last `days` days.
    Period(u32),
    /// The permanent counters of one endpoint.
    Endpoint(String),
    /// The permanent global counters (unaffected by log cleanup).
    Global,
}

/// What `/api/stats` reads: the endpoint filter for the periods (today, 7
/// and 30 days) and the source of the totals.
#[derive(Debug)]
pub struct StatsPlan {
    pub endpoint: Option<String>,
    pub total: TotalSource,
}

/// The days of the three periods reported by `/api/stats`.
pub fn stats_period_days() -> (d: (u32, u32, u32))
    ensures
        d == (1u32, 7u32, 30u32),
{
    (1, 7, 30)
}

/// Plans `/api/stats`: a `days` parameter selects a period total; else an
/// endpoint filter selects that endpoint's permanent counters; else the
/// global permanent counters.
pub fn plan_stats(q: &StatsQuery) -> (p: StatsPlan)
    ensures
        opt_text(p.endpoint) == endpoint_filter_of(q.endpoint),
        match q.days {
            Some(d) => p.total == TotalSource::Period(d),
            None => match endpoint_filter_of(q.endpoint) {
                Some(e) => p.total matches TotalSource::Endpoint(name) && name@ == e,
                None => p.total == TotalSource::Global,
            },
        },
{
    let endpoint = endpoint_filter(&q.endpoint);
    let total = match q.days {
        Some(d) => TotalSource::Period(d),
        None => match &endpoint {
            Some(e) => TotalSource::Endpoint(e.clone()),
            None => TotalSource::Global,
        },
    };
    StatsPlan { endpoint, total }
}

/// `GET /api/chart` parameters.
#[derive(Debug)]
pub struct ChartQuery {
    pub endpoint: Option<String>,
    /// Days of daily figures; 30 when not given.
    pub days: Option<u32>,
}

/// Plans `/api/chart`: the endpoint filter, the hours of hourly figures
/// (24) and the days of daily figures (30 by default).
pub fn plan_chart(q: &ChartQuery) -> (p: (Option<String>, u32, u32))
    ensures
        opt_text(p.0) == endpoint_filter_of(q.endpoint),
        p.1 == 24,
        p.2 == match q.days {
            Some(d) => d,
            None => 30,
        },
{
    let days = match q.days {
        Some(d) => d,
        None => 30,
    };
    (endpoint_filter(&q.endpoint), 24, days)
}

/// `GET /api/requests` parameters.
#[derive(Debug)]
pub struct RequestsQuery {
    /// 1-based page; 1 by default.
    pub page: Option<u32>,
    /// Rows per page, 1 to 200; 50 by default.
    pub page_size: Option<u32>,
    pub endpoint: Option<String>,
    pub status: Option<String>,
}

/// A page of the request log to read.
#[derive(Debug)]
pub struct RequestsPlan {
    pub page: u32,
    pub page_size: u32,
    pub endpoint: Option<String>,
    pub status: Option<String>,
}

/// A page size brought into `1..=200`.
pub open spec fn clamped_page_size(n: u32) -> u32 {
    if n < 1 {
        1
    } else if n > 200 {
        200
    } else {
        n
    }
}

/// Brings a page size into `1..=200`.
pub fn clamp_page_size(n: u32) -> (r: u32)
    ensures
        r == clamped_page_size(n),
{
    if n < 1 {
        1
    } else if n > 200 {
        200
    } else {
        n
    }
}

/// Plans `/api/requests`: page at least 1 (default 1), page size clamped
/// to `1..=200` (default 50), and the non-empty filters.
pub fn plan_requests(q: &RequestsQuery) -> (p: RequestsPlan)
    ensures
        p.page == match q.page {
            Some(n) => if n < 1 { 1 } else { n },
            None => 1,
        },
        p.page_size == clamped_page_size(
            match q.page_size {
                Some(n) => n,
                None => 50,
            },
        ),
        opt_text(p.endpoint) == endpoint_filter_of(q.endpoint),
        opt_text(p.status) == endpoint_filter_of(q.status),
{
    let page = match q.page {
        Some(n) => if n < 1 {
            1
        } else {
            n
        },
        None => 1,
    };
    let size = match q.page_size {
        Some(n) => n,
        None => 50,
    };
    RequestsPlan {
        page,
        page_size: clamp_page_size(size),
        endpoint: endpoint_filter(&q.endpoint),
        status: endpoint_filter(&q.status),
    }
}

/// A page of the request log with the number of matching rows.
#[derive(Debug)]
pub struct RequestsResponse {
    pub items: Vec<RequestLog>,
    pub total: i64,
    pub page: u32,
    pub page_size: u32,
}

/// `GET /api/lang-stats` parameters.
#[derive(Debug)]
pub struct LangStatsQuery {
    pub days: Option<u32>,
    pub endpoint: Option<String>,
}

/// Plans `/api/lang-stats`: the endpoint filter, and the days of the
/// window (all time when not given).
pub fn plan_lang_stats(q: &LangStatsQuery) -> (p: (Option<String>, Option<u32>))
    ensures
        opt_text(p.0) == endpoint_filter_of(q.endpoint),
        p.1 == q.days,
{
    (endpoint_filter(&q.endpoint), q.days)
}

/// `GET /api/lang-hourly-stats` parameters.
#[derive(Debug)]
pub struct LangHourlyStatsQuery {
    pub days: Option<u32>,
}

/// Which language series `/api/lang-hourly-stats` returns.
#[derive(Debug, PartialEq, Eq)]
pub enum LangSeries {
    /// Per hour over the last 24 hours.
    Hourly,
    /// Per day over the last `days` days.
    Daily(u32),
}

/// Plans `/api/lang-hourly-stats`: daily figures for more than one day,
/// hourly figures otherwise (and by default).
pub fn plan_lang_series(q: &LangHourlyStatsQuery) -> (s: LangSeries)
    ensures
        s == match q.days {
            Some(d) => if d > 1 { LangSeries::Daily(d) } else { LangSeries::Hourly },
            None => LangSeries::Hourly,
        },
{
    match q.days {
        Some(d) => if d > 1 {
            LangSeries::Daily(d)
        } else {
            LangSeries::Hourly
        },
        None => LangSeries::Hourly,
    }
}

/// `GET /api/analytics/heatmap` parameters.
#[derive(Debug)]
pub struct HeatmapQuery {
    /// `weekday` (default) or `date`.
    pub view: Option<String>,
    /// 30 by default.
    pub days: Option<u32>,
    pub endpoint: Option<String>,
}

/// What the heatmap reads and how it is labelled.
#[derive(Debug)]
pub struct HeatmapPlan {
    /// The view name echoed back.
    pub view: String,
    /// Whether cells are per date (else per weekday).
    pub by_date: bool,
    pub days: u32,
    pub endpoint: Option<String>,
}

/// Plans the heatmap: view `weekday` by default, per date only for view
/// `date`, 30 days by default.
pub fn plan_heatmap(q: &HeatmapQuery) -> (p: HeatmapPlan)
    ensures
        p.view@ == match q.view {
            Some(v) => v@,
            None => "weekday"@,
        },
        p.by_date == (p.view@ == "date"@),
        p.days == match q.days {
            Some(d) => d,
            None => 30,
        },
        opt_text(p.endpoint) == endpoint_filter_of(q.endpoint),
{
    let view = match &q.view {
        Some(v) => v.clone(),
        None => String::from_str("weekday"),
    };
    let by_date = crate::text::text_eq(view.as_str(), "date");
    let days = match q.days {
        Some(d) => d,
        None => 30,
    };
    HeatmapPlan { view, by_date, days, endpoint: endpoint_filter(&q.endpoint) }
}

/// `GET /api/analytics/timeline` parameters.
#[derive(Debug)]
pub struct TimelineQuery {
    /// 7 by default.
    pub days: Option<u32>,
}

/// The days covered by the timeline: 7 by default.
pub fn plan_timeline(q: &TimelineQuery) -> (days: u32)
    ensures
        days == match q.days {
            Some(d) => d,
            None => 7,
        },
{
    match q.days {
        Some(d) => d,
        None => 7,
    }
}

/// `GET /api/analytics/error-trend` parameters.
#[derive(Debug)]
pub struct ErrorTrendQuery {
    /// 7 by default.
    pub days: Option<u32>,
    /// `hourly` or `daily`; by default hourly for up to 2 days.
    pub granularity: Option<String>,
    pub endpoint: Option<String>,
}

/// Plans the error trend: the days (7 by default), whether it is hourly
/// (the granularity is `hourly`, which is the default for up to 2 days),
/// and the endpoint filter.
pub fn plan_error_trend(q: &ErrorTrendQuery) -> (p: (u32, bool, Option<String>))
    ensures
        p.0 == match q.days {
            Some(d) => d,
            None => 7,
        },
        p.1 == match q.granularity {
            Some(g) => g@ == "hourly"@,
            None => p.0 <= 2,
        },
        opt_text(p.2) == endpoint_filter_of(q.endpoint),
{
    let days = match q.days {
        Some(d) => d,
        None => 7,
    };
    let hourly = match &q.granularity {
        Some(g) => crate::text::text_eq(g.as_str(), "hourly"),
        None => days <= 2,
    };
    (days, hourly, endpoint_filter(&q.endpoint))
}

/// `GET /api/export` parameters.
#[derive(Debug)]
pub struct ExportQuery {
    /// `json` (default) or `csv`.
    pub format: Option<String>,
    pub start: Option<String>,
    pub end: Option<String>,
    pub lang: Option<String>,
    pub status: Option<String>,
}

/// Whether the export is CSV (format `csv`); JSON otherwise.
pub fn export_is_csv(q: &ExportQuery) -> (csv: bool)
    ensures
        csv == (q.format matches Some(f) && f@ == "csv"@),
{
    match &q.format {
        Some(f) => crate::text::text_eq(f.as_str(), "csv"),
        None => false,
    }
}

// ----- /api/stats response -----

/// Request and character counts of the three periods.
#[derive(Debug)]
pub struct PeriodStats {
    pub today_requests: i64,
    pub today_chars: i64,
    pub week_requests: i64,
    pub week_chars: i64,
    pub month_requests: i64,
    pub month_chars: i64,
}

/// A summary of the configuration for the dashboard header.
#[derive(Debug)]
pub struct ConfigInfo {
    /// The first endpoint's URL (empty without endpoints).
    pub upstream_url: String,
    /// The first endpoint's API key (empty without endpoints).
    pub api_key: String,
    pub auto_refresh_seconds: u64,
    pub probe_interval_secs: u64,
}

/// The `/api/stats` response.
#[derive(Debug)]
pub struct StatsResponse {
    pub total_requests: i64,
    pub total_chars: i64,
    pub health: HealthStatus,
    pub config: ConfigInfo,
    pub period: PeriodStats,
}

/// The header summary of a configuration.
pub fn config_info(config: &Config) -> (info: ConfigInfo)
    ensures
        config.upstream.endpoints@.len() > 0 ==> info.upstream_url@ == config.upstream.endpoints@[0].url@
            && info.api_key@ == config.upstream.endpoints@[0].api_key@,
        config.upstream.endpoints@.len() == 0 ==> info.upstream_url@.len() == 0 && info.api_key@.len() == 0,
        info.auto_refresh_seconds == config.monitor.auto_refresh_seconds,
        info.probe_interval_secs == config.upstream.probe_interval_secs,
{
    let (upstream_url, api_key) = if config.upstream.endpoints.len() > 0 {
        (config.upstream.endpoints[0].url.clone(), config.upstream.endpoints[0].api_key.clone())
    } else {
        (String::new(), String::new())
    };
    ConfigInfo {
        upstream_url,
        api_key,
        auto_refresh_seconds: config.monitor.auto_refresh_seconds,
        probe_interval_secs: config.upstream.probe_interval_secs,
    }
}

/// The heatmap response: the view name and its cells.
#[derive(Debug)]
pub struct HeatmapResponse {
    pub view: String,
    pub data: Vec<crate::db::HeatmapCell>,
}

} // verus!

verus! {

// ----- CSV export -----

/// The bytes `csv::Writer` with default settings writes for one record of
/// the given fields (separators, quoting where needed, and the line end).
pub uninterp spec fn csv_record_bytes(fields: Seq<Seq<char>>) -> Seq<u8>;

/// One record written by a fresh `csv::Writer` over a byte vector
/// (`Writer::from_writer`, `write_record`, `into_inner`).
#[verifier::external_body]
fn csv_record(fields: &Vec<String>) -> (bytes: Vec<u8>)
    ensures
        bytes@ == csv_record_bytes(crate::db::string_views(fields@)),
{
    let mut writer = csv::Writer::from_writer(Vec::new());
    let _ = writer.write_record(fields);
    writer.into_inner().unwrap_or_default()
}

/// The export's header record.
pub open spec fn export_header() -> Seq<Seq<char>> {
    seq![
        "id"@,
        "source_lang"@,
        "target_lang"@,
        "source_chars"@,
        "target_chars"@,
        "status"@,
        "error_msg"@,
        "created_at"@,
    ]
}

/// The export record of one log row (a missing error is an empty field).
pub open spec fn export_row(l: RequestLog) -> Seq<Seq<char>> {
    seq![
        decimal_text(l.id as int),
        l.source_lang@,
        l.target_lang@,
        decimal_text(l.source_chars as int),
        decimal_text(l.target_chars as int),
        l.status@,
        match l.error_msg {
            Some(e) => e@,
            None => Seq::empty(),
        },
        l.created_at@,
    ]
}

/// The CSV records of the rows, in order.
pub open spec fn export_rows(logs: Seq<RequestLog>) -> Seq<u8>
    decreases logs.len(),
{
    if logs.len() == 0 {
        Seq::empty()
    } else {
        export_rows(logs.drop_last()) + csv_record_bytes(export_row(logs.last()))
    }
}

/// The CSV export of log rows: the header record, then one record per row.
pub fn export_csv(logs: &Vec<RequestLog>) -> (bytes: Vec<u8>)
    ensures
        bytes@ == csv_record_bytes(export_header()) + export_rows(logs@),
{
    let mut header: Vec<String> = Vec::new();
    header.push(String::from_str("id"));
    header.push(String::from_str("source_lang"));
    header.push(String::from_str("target_lang"));
    header.push(String::from_str("source_chars"));
    header.push(String::from_str("target_chars"));
    header.push(String::from_str("status"));
    header.push(String::from_str("error_msg"));
    header.push(String::from_str("created_at"));
    assert(crate::db::string_views(header@) =~= export_header());
    let mut out = csv_record(&header);
    let ghost head = out@;
    let n = logs.len();
    for k in 0..n
        invariant
            n == logs@.len(),
            head == csv_record_bytes(export_header()),
            out@ == head + export_rows(logs@.take(k as int)),
    {
        let l = &logs[k];
        let mut fields: Vec<String> = Vec::new();
        fields.push(i64_text(l.id));
        fields.push(l.source_lang.clone());
        fields.push(l.target_lang.clone());
        fields.push(i64_text(l.source_chars));
        fields.push(i64_text(l.target_chars));
        fields.push(l.status.clone());
        fields.push(
            match &l.error_msg {
                Some(e) => e.clone(),
                None => String::new(),
            },
        );
        fields.push(l.created_at.clone());
        assert(crate::db::string_views(fields@) =~= export_row(logs@[k as int]));
        let record = csv_record(&fields);
        crate::text::append_bytes(&mut out, record.as_slice());
        assert(logs@.take(k + 1).drop_last() =~= logs@.take(k as int));
        assert(out@ =~= head + export_rows(logs@.take(k + 1)));
    }
    assert(logs@.take(n as int) =~= logs@);
    out
}

} // verus!
