//! Configuration model: the sections of `config.toml`, their defaults, and
//! the decisions taken when a configuration is reloaded.

use vstd::prelude::*;

use crate::cache::{memory_limit_fits, CacheView, TranslationCache, MAX_TTL_SECS};
use crate::upstream::{fresh_endpoints, LoadBalancer};

verus! {

/// One upstream translation endpoint as configured.
#[derive(Debug, Clone)]
pub struct EndpointConfig {
    /// Display name; an empty name is replaced by `endpoint-{n}` at load.
    pub name: String,
    /// Full URL of the translation API.
    pub url: String,
    /// API key sent as a bearer token; empty when none is needed.
    pub api_key: String,
}

impl EndpointConfig {
    /// A field-by-field copy.
    pub fn duplicate(&self) -> (res: EndpointConfig)
        ensures
            res == *self,
    {
        EndpointConfig { name: self.name.clone(), url: self.url.clone(), api_key: self.api_key.clone() }
    }
}

/// A copy of a list of endpoints.
pub fn duplicate_endpoints(v: &Vec<EndpointConfig>) -> (res: Vec<EndpointConfig>)
    ensures
        res@ == v@,
{
    let mut res: Vec<EndpointConfig> = Vec::new();
    for i in 0..v.len()
        invariant
            res@ == v@.take(i as int),
    {
        res.push(v[i].duplicate());
        assert(res@ =~= v@.take(i + 1));
    }
    assert(v@.take(v@.len() as int) =~= v@);
    res
}

/// The upstream section: endpoints, failure threshold and probe interval.
#[derive(Debug, Clone)]
pub struct UpstreamConfig {
    pub endpoints: Vec<EndpointConfig>,
    /// Consecutive failures after which an endpoint is taken out of rotation.
    pub max_failures: u32,
    /// Seconds between background probes of the endpoints.
    pub probe_interval_secs: u64,
}

/// The listening address (changes take effect after a restart).
#[derive(Debug, Clone)]
pub struct ProxyConfig {
    pub host: String,
    pub port: u16,
}

/// The dashboard section.
#[derive(Debug, Clone)]
pub struct MonitorConfig {
    /// Dashboard refresh interval in seconds; 0 disables refreshing.
    pub auto_refresh_seconds: u64,
    /// Days of request log kept; aggregated charts are kept regardless.
    pub log_retention_days: u32,
}

/// Demonstration mode: synthetic data for the dashboard.
#[derive(Debug, Clone)]
pub struct DemoConfig {
    pub enabled: bool,
    /// Seed of the synthetic data, so that it can be reproduced.
    pub seed: u64,
}

/// The language pair used by health checks.
#[derive(Debug, Clone)]
pub struct HealthCheckConfig {
    pub source_lang: String,
    pub target_lang: String,
}

/// The translation cache section. With `max_memory_mb > 0` the cache is
/// bounded by memory and `max_entries` is ignored; otherwise it is bounded
/// by `max_entries`. Entries expire after `ttl_secs`.
#[derive(Debug, Clone)]
pub struct CacheConfig {
    pub enabled: bool,
    pub ttl_secs: u64,
    pub max_entries: u64,
    pub max_memory_mb: u64,
}

/// The whole configuration file.
#[derive(Debug, Clone)]
pub struct Config {
    pub upstream: UpstreamConfig,
    pub proxy: ProxyConfig,
    pub monitor: MonitorConfig,
    pub health_check: HealthCheckConfig,
    pub demo: DemoConfig,
    pub cache: CacheConfig,
}

/// Default failure threshold: 3.
pub fn default_max_failures() -> (v: u32)
    ensures
        v == 3,
{
    3
}

/// Default probe interval: 60 seconds.
pub fn default_probe_interval_secs() -> (v: u64)
    ensures
        v == 60,
{
    60
}

/// Default listening host: `127.0.0.1` (local access only).
pub fn default_proxy_host() -> (v: String)
    ensures
        v@ == "127.0.0.1"@,
{
    String::from_str("127.0.0.1")
}

/// Default listening port: 5555.
pub fn default_proxy_port() -> (v: u16)
    ensures
        v == 5555,
{
    5555
}

/// Default log retention: 30 days.
pub fn default_log_retention_days() -> (v: u32)
    ensures
        v == 30,
{
    30
}

/// Default demonstration seed: 20260511.
pub fn default_demo_seed() -> (v: u64)
    ensures
        v == 20260511,
{
    20260511
}

/// Default health check source language: `EN`.
pub fn default_source_lang() -> (v: String)
    ensures
        v@ == "EN"@,
{
    String::from_str("EN")
}

/// Default health check target language: `ZH`.
pub fn default_target_lang() -> (v: String)
    ensures
        v@ == "ZH"@,
{
    String::from_str("ZH")
}

/// Default cache time-to-live: 3600 seconds.
pub fn default_cache_ttl_secs() -> (v: u64)
    ensures
        v == 3600,
{
    3600
}

/// Default cache bound: 10000 entries.
pub fn default_cache_max_entries() -> (v: u64)
    ensures
        v == 10000,
{
    10000
}

impl Default for UpstreamConfig {
    fn default() -> (c: UpstreamConfig)
        ensures
            c.endpoints@.len() == 0,
            c.max_failures == 3,
            c.probe_interval_secs == 60,
    {
        UpstreamConfig {
            endpoints: Vec::new(),
            max_failures: default_max_failures(),
            probe_interval_secs: default_probe_interval_secs(),
        }
    }
}

impl Default for ProxyConfig {
    fn default() -> (c: ProxyConfig)
        ensures
            c.host@ == "127.0.0.1"@,
            c.port == 5555,
    {
        ProxyConfig { host: default_proxy_host(), port: default_proxy_port() }
    }
}

impl Default for MonitorConfig {
    fn default() -> (c: MonitorConfig)
        ensures
            c.auto_refresh_seconds == 0,
            c.log_retention_days == 30,
    {
        MonitorConfig { auto_refresh_seconds: 0, log_retention_days: default_log_retention_days() }
    }
}

impl Default for HealthCheckConfig {
    fn default() -> (c: HealthCheckConfig)
        ensures
            c.source_lang@ == "EN"@,
            c.target_lang@ == "ZH"@,
    {
        HealthCheckConfig { source_lang: default_source_lang(), target_lang: default_target_lang() }
    }
}

impl Default for DemoConfig {
    fn default() -> (c: DemoConfig)
        ensures
            !c.enabled,
            c.seed == 20260511,
    {
        DemoConfig { enabled: false, seed: default_demo_seed() }
    }
}

impl Default for CacheConfig {
    fn default() -> (c: CacheConfig)
        ensures
            !c.enabled,
            c.ttl_secs == 3600,
            c.max_entries == 10000,
            c.max_memory_mb == 0,
    {
        CacheConfig {
            enabled: false,
            ttl_secs: default_cache_ttl_secs(),
            max_entries: default_cache_max_entries(),
            max_memory_mb: 0,
        }
    }
}

/// Whether a configuration is the default one.
pub open spec fn is_default_config(c: Config) -> bool {
    &&& c.upstream.endpoints@.len() == 0
    &&& c.upstream.max_failures == 3
    &&& c.upstream.probe_interval_secs == 60
    &&& c.proxy.host@ == "127.0.0.1"@
    &&& c.proxy.port == 5555
    &&& c.monitor.auto_refresh_seconds == 0
    &&& c.monitor.log_retention_days == 30
    &&& c.health_check.source_lang@ == "EN"@
    &&& c.health_check.target_lang@ == "ZH"@
    &&& !c.demo.enabled
    &&& c.demo.seed == 20260511
    &&& !c.cache.enabled
    &&& c.cache.ttl_secs == 3600
    &&& c.cache.max_entries == 10000
    &&& c.cache.max_memory_mb == 0
}

impl Default for Config {
    fn default() -> (c: Config)
        ensures
            is_default_config(c),
    {
        Config {
            upstream: UpstreamConfig::default(),
            proxy: ProxyConfig::default(),
            monitor: MonitorConfig::default(),
            health_check: HealthCheckConfig::default(),
            demo: DemoConfig::default(),
            cache: CacheConfig::default(),
        }
    }
}

/// Whether the cache settings can be applied: `moka` refuses a
/// time-to-live over 1000 years, and the memory bound must fit in bytes.
pub open spec fn cache_settings_valid(c: CacheConfig) -> bool {
    c.ttl_secs <= MAX_TTL_SECS && memory_limit_fits(c.max_memory_mb)
}

/// Checks `cache_settings_valid`.
pub fn check_cache_settings(c: &CacheConfig) -> (ok: bool)
    ensures
        ok == cache_settings_valid(*c),
{
    let mb = c.max_memory_mb;
    assert((mb as int) <= (u64::MAX as int) / 1048576 <==> (mb as int) * 1024 * 1024 <= u64::MAX as int) by (nonlinear_arith);
    c.ttl_secs <= MAX_TTL_SECS && mb <= u64::MAX / (1024 * 1024)
}

/// Whether the listening address differs between two configurations (a
/// change that needs a restart).
pub fn proxy_address_changed(current: &Config, new: &Config) -> (changed: bool)
    ensures
        changed == (current.proxy.host@ != new.proxy.host@ || current.proxy.port != new.proxy.port),
{
    current.proxy.host != new.proxy.host || current.proxy.port != new.proxy.port
}

/// Applies a (new) configuration to the running balancer and cache: the
/// balancer takes the endpoints and threshold, the cache its settings.
pub fn apply_runtime_settings(config: &Config, lb: &mut LoadBalancer, cache: &mut TranslationCache)
    requires
        cache_settings_valid(config.cache),
    ensures
        final(lb)@.endpoints == fresh_endpoints(config.upstream.endpoints@),
        final(lb)@.max_failures == config.upstream.max_failures,
        final(lb)@.current_index == 0,
        final(lb)@.last_known_good is None,
        final(lb)@.generation == old(lb)@.generation.wrapping_add(1),
        final(cache).view() == (CacheView {
            entries: Map::empty(),
            enabled: config.cache.enabled,
            ttl_secs: config.cache.ttl_secs,
            max_entries: config.cache.max_entries,
            max_memory_mb: config.cache.max_memory_mb,
            ..old(cache).view()
        }),
{
    lb.reload(duplicate_endpoints(&config.upstream.endpoints), config.upstream.max_failures);
    cache.reload(config.cache.enabled, config.cache.ttl_secs, config.cache.max_entries, config.cache.max_memory_mb);
}

} // verus!
