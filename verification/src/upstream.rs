//! Load balancing over several upstream translation endpoints.
//!
//! Selection walks the endpoint ring round-robin from a cursor and takes the
//! first healthy endpoint; when none is healthy it falls back to the last
//! endpoint that answered successfully, and finally to the first endpoint.
//! Consecutive failures beyond a threshold mark an endpoint unhealthy; a
//! success (or a successful probe) marks it healthy again.

use vstd::prelude::*;

use crate::config::EndpointConfig;
use crate::text::{decimal_digits, push_decimal, text_eq};

verus! {

/// Model of one endpoint's runtime state.
pub struct EndpointView {
    pub name: Seq<char>,
    pub url: Seq<char>,
    pub api_key: Seq<char>,
    pub healthy: bool,
    pub consecutive_failures: u32,
    pub total_requests: u64,
    pub total_successes: u64,
    pub latency_sum_ms: u64,
    pub last_error: Option<Seq<char>>,
    pub last_check_at: Option<Seq<char>>,
}

/// Model of the whole balancer.
pub struct BalancerView {
    pub endpoints: Seq<EndpointView>,
    /// Round-robin cursor; it only moves forward (wrapping at `usize::MAX`).
    pub current_index: usize,
    pub max_failures: u32,
    pub last_known_good: Option<usize>,
    /// Bumped on every reload; results of probes started before a reload are dropped.
    pub generation: u64,
}

/// Model of a selection result.
pub struct SelectedView {
    pub url: Seq<char>,
    pub api_key: Seq<char>,
    pub index: usize,
    pub name: Seq<char>,
}

pub open spec fn opt_text(o: Option<String>) -> Option<Seq<char>> {
    match o {
        Some(s) => Some(s@),
        None => None,
    }
}

/// The name an endpoint is shown under: its configured name, or
/// `endpoint-{n}` with `n` its 1-based position when none is configured.
pub open spec fn endpoint_display_name(configured: Seq<char>, position: nat) -> Seq<char> {
    if configured.len() == 0 {
        "endpoint-"@ + decimal_digits(position + 1)
    } else {
        configured
    }
}

/// A freshly configured endpoint: healthy, with every counter at zero.
pub open spec fn fresh_endpoint(c: EndpointConfig, position: nat) -> EndpointView {
    EndpointView {
        name: endpoint_display_name(c.name@, position),
        url: c.url@,
        api_key: c.api_key@,
        healthy: true,
        consecutive_failures: 0,
        total_requests: 0,
        total_successes: 0,
        latency_sum_ms: 0,
        last_error: None,
        last_check_at: None,
    }
}

pub open spec fn fresh_endpoints(cs: Seq<EndpointConfig>) -> Seq<EndpointView> {
    Seq::new(cs.len(), |i: int| fresh_endpoint(cs[i], i as nat))
}

/// Position reached on a ring of `n` endpoints `offset` steps after `start`.
pub open spec fn ring_index(start: int, offset: int, n: int) -> int {
    (start + offset) % n
}

/// The first healthy endpoint met when walking the ring from `start`,
/// looking at offsets `k, k + 1, ..., len - 1`.
pub open spec fn scan_healthy(eps: Seq<EndpointView>, start: int, k: nat) -> Option<int>
    decreases eps.len() - k,
{
    if k >= eps.len() {
        None
    } else if eps[ring_index(start, k as int, eps.len() as int)].healthy {
        Some(ring_index(start, k as int, eps.len() as int))
    } else {
        scan_healthy(eps, start, k + 1)
    }
}

/// What `scan_healthy` finds is a healthy endpoint in range, reached after
/// only unhealthy ones; when it finds nothing, every endpoint at the
/// offsets it looked at is unhealthy.
pub proof fn lemma_scan_healthy(eps: Seq<EndpointView>, start: int, k: nat)
    ensures
        match scan_healthy(eps, start, k) {
            Some(i) => {
                &&& 0 <= i < eps.len()
                &&& eps[i].healthy
                &&& exists|o: int|
                    #![trigger ring_index(start, o, eps.len() as int)]
                    k <= o < eps.len() && i == ring_index(start, o, eps.len() as int) && forall|j: int|
                        k <= j < o ==> !eps[#[trigger] ring_index(start, j, eps.len() as int)].healthy
            },
            None => forall|j: int|
                k <= j < eps.len() ==> !eps[#[trigger] ring_index(start, j, eps.len() as int)].healthy,
        },
    decreases eps.len() - k,
{
    if k < eps.len() {
        vstd::arithmetic::div_mod::lemma_mod_bound(start + k, eps.len() as int);
        lemma_scan_healthy(eps, start, k + 1);
        let n = eps.len() as int;
        if !eps[ring_index(start, k as int, n)].healthy {
            match scan_healthy(eps, start, k + 1) {
                Some(i) => {
                    let o = choose|o: int|
                        #![trigger ring_index(start, o, n)]
                        k + 1 <= o < n && i == ring_index(start, o, n) && forall|j: int|
                            k + 1 <= j < o ==> !eps[#[trigger] ring_index(start, j, n)].healthy;
                    assert(k <= o < n && i == ring_index(start, o, n));
                },
                None => {},
            }
        } else {
            assert(forall|j: int| k <= j < k ==> !eps[#[trigger] ring_index(start, j, n)].healthy);
        }
    }
}

/// The endpoint `select` picks: the first healthy one from the cursor
/// position; otherwise the last known good one when it is still in range;
/// otherwise the first one. `None` exactly when there are no endpoints.
pub open spec fn selection(v: BalancerView) -> Option<int> {
    let n = v.endpoints.len() as int;
    if n == 0 {
        None
    } else {
        match scan_healthy(v.endpoints, (v.current_index as int) % n, 0) {
            Some(i) => Some(i),
            None => match v.last_known_good {
                Some(j) => if (j as int) < n {
                    Some(j as int)
                } else {
                    Some(0)
                },
                None => Some(0),
            },
        }
    }
}

/// The endpoint `select_excluding` picks: the first healthy one after
/// `exclude` on the ring, never `exclude` itself; `None` with fewer than two
/// endpoints or when no other endpoint is healthy.
pub open spec fn exclusion_selection(v: BalancerView, exclude: usize) -> Option<int> {
    let n = v.endpoints.len() as int;
    if n <= 1 {
        None
    } else {
        scan_healthy(v.endpoints, (exclude as int) % n, 1)
    }
}

/// The balancer after `select`: the cursor moves one step, unless there is
/// nothing to select from.
pub open spec fn advance_cursor(v: BalancerView) -> BalancerView {
    if v.endpoints.len() == 0 {
        v
    } else {
        BalancerView { current_index: v.current_index.wrapping_add(1), ..v }
    }
}

pub open spec fn selected_view(v: BalancerView, i: int) -> SelectedView {
    SelectedView {
        url: v.endpoints[i].url,
        api_key: v.endpoints[i].api_key,
        index: i as usize,
        name: v.endpoints[i].name,
    }
}

/// Endpoint state after a successful request with the given latency.
pub open spec fn endpoint_after_success(e: EndpointView, latency_ms: u64) -> EndpointView {
    EndpointView {
        total_requests: e.total_requests.wrapping_add(1),
        total_successes: e.total_successes.wrapping_add(1),
        latency_sum_ms: e.latency_sum_ms.wrapping_add(latency_ms),
        consecutive_failures: 0,
        healthy: true,
        last_error: None,
        ..e
    }
}

/// Endpoint state after a failed request: the failure streak grows, and the
/// endpoint turns unhealthy once the streak reaches `max_failures`.
pub open spec fn endpoint_after_failure(e: EndpointView, error: Seq<char>, max_failures: u32) -> EndpointView {
    let failures = e.consecutive_failures.wrapping_add(1);
    EndpointView {
        total_requests: e.total_requests.wrapping_add(1),
        last_error: Some(error),
        consecutive_failures: failures,
        healthy: if failures >= max_failures { false } else { e.healthy },
        ..e
    }
}

pub open spec fn after_success(v: BalancerView, idx: usize, latency_ms: u64) -> BalancerView {
    if idx >= v.endpoints.len() {
        v
    } else {
        BalancerView {
            endpoints: v.endpoints.update(idx as int, endpoint_after_success(v.endpoints[idx as int], latency_ms)),
            last_known_good: Some(idx),
            ..v
        }
    }
}

pub open spec fn after_failure(v: BalancerView, idx: usize, error: Seq<char>) -> BalancerView {
    if idx >= v.endpoints.len() {
        v
    } else {
        BalancerView {
            endpoints: v.endpoints.update(
                idx as int,
                endpoint_after_failure(v.endpoints[idx as int], error, v.max_failures),
            ),
            ..v
        }
    }
}


/// What a background probe of an endpoint found.
pub enum ProbeOutcome {
    /// The endpoint answered with a 2xx status after `latency_ms`.
    Reachable { latency_ms: u64 },
    /// The endpoint answered with another status, or could not be reached.
    Failed { error: String },
}

/// `HTTP {status}`: the error recorded when an endpoint answers a probe or
/// a check with a status outside 2xx.
pub open spec fn http_error_text(status: u16) -> Seq<char> {
    "HTTP "@ + decimal_digits(status as nat)
}

fn http_error(status: u16) -> (s: String)
    ensures
        s@ == http_error_text(status),
{
    let mut s = String::from_str("HTTP ");
    push_decimal(&mut s, status as u64);
    s
}

/// What a probe found when the endpoint answered with `status` after
/// `latency_ms`: reachable on a 2xx status, else failed with `HTTP {status}`.
pub fn reply_probe_outcome(status: u16, latency_ms: u64) -> (o: ProbeOutcome)
    ensures
        200 <= status < 300 ==> o == (ProbeOutcome::Reachable { latency_ms }),
        !(200 <= status < 300) ==> (o matches ProbeOutcome::Failed { error } && error@ == http_error_text(status)),
{
    if 200 <= status && status < 300 {
        ProbeOutcome::Reachable { latency_ms }
    } else {
        ProbeOutcome::Failed { error: http_error(status) }
    }
}

/// The failure of a manual check answered with `status`: none on a 2xx
/// status, else `HTTP {status}`.
pub fn reply_check_failure(status: u16) -> (failure: Option<String>)
    ensures
        200 <= status < 300 ==> failure is None,
        !(200 <= status < 300) ==> (failure matches Some(e) && e@ == http_error_text(status)),
{
    if 200 <= status && status < 300 {
        None
    } else {
        Some(http_error(status))
    }
}

/// Endpoint state after a background probe at time `now`: a reachable
/// endpoint recovers, and its latency and request counters grow; a failing
/// one records the error and grows its failure streak, turning unhealthy at
/// the threshold (without counting a request).
pub open spec fn endpoint_after_probe(e: EndpointView, now: Seq<char>, outcome: ProbeOutcome, max_failures: u32) -> EndpointView {
    match outcome {
        ProbeOutcome::Reachable { latency_ms } => EndpointView {
            consecutive_failures: 0,
            healthy: true,
            last_error: None,
            latency_sum_ms: e.latency_sum_ms.wrapping_add(latency_ms),
            total_requests: e.total_requests.wrapping_add(1),
            total_successes: e.total_successes.wrapping_add(1),
            last_check_at: Some(now),
            ..e
        },
        ProbeOutcome::Failed { error } => {
            let failures = e.consecutive_failures.wrapping_add(1);
            EndpointView {
                last_error: Some(error@),
                consecutive_failures: failures,
                healthy: if failures >= max_failures { false } else { e.healthy },
                last_check_at: Some(now),
                ..e
            }
        },
    }
}

pub open spec fn after_probe(v: BalancerView, generation: u64, idx: usize, now: Seq<char>, outcome: ProbeOutcome) -> BalancerView {
    if generation != v.generation || idx >= v.endpoints.len() {
        v
    } else {
        BalancerView {
            endpoints: v.endpoints.update(
                idx as int,
                endpoint_after_probe(v.endpoints[idx as int], now, outcome, v.max_failures),
            ),
            ..v
        }
    }
}

/// Endpoint state after a manual health check at time `now`: success
/// recovers it and counts a successful request with its latency; failure
/// marks it unhealthy at once, records the error and counts a request.
pub open spec fn endpoint_after_check(e: EndpointView, now: Seq<char>, latency_ms: u64, failure: Option<Seq<char>>) -> EndpointView {
    match failure {
        None => EndpointView {
            total_requests: e.total_requests.wrapping_add(1),
            total_successes: e.total_successes.wrapping_add(1),
            latency_sum_ms: e.latency_sum_ms.wrapping_add(latency_ms),
            consecutive_failures: 0,
            healthy: true,
            last_error: None,
            last_check_at: Some(now),
            ..e
        },
        Some(error) => EndpointView {
            total_requests: e.total_requests.wrapping_add(1),
            consecutive_failures: e.consecutive_failures.wrapping_add(1),
            healthy: false,
            last_error: Some(error),
            last_check_at: Some(now),
            ..e
        },
    }
}

/// The balancer after a manual check of the endpoint at `idx` taken from
/// the list of generation `generation`: the endpoint is updated only when
/// the list has not been reloaded since; a success makes `idx` the last
/// known good endpoint in any case.
pub open spec fn after_check(v: BalancerView, generation: u64, idx: usize, now: Seq<char>, latency_ms: u64, failure: Option<Seq<char>>) -> BalancerView {
    let v1 = if generation != v.generation || idx >= v.endpoints.len() {
        v
    } else {
        BalancerView {
            endpoints: v.endpoints.update(idx as int, endpoint_after_check(v.endpoints[idx as int], now, latency_ms, failure)),
            ..v
        }
    };
    if failure is None {
        BalancerView { last_known_good: Some(idx), ..v1 }
    } else {
        v1
    }
}

/// The first endpoint, from offset `k` on, whose name is `name`.
pub open spec fn first_named_from(eps: Seq<EndpointView>, name: Seq<char>, k: nat) -> Option<int>
    decreases eps.len() - k,
{
    if k >= eps.len() {
        None
    } else if eps[k as int].name == name {
        Some(k as int)
    } else {
        first_named_from(eps, name, k + 1)
    }
}

pub proof fn lemma_first_named(eps: Seq<EndpointView>, name: Seq<char>, k: nat)
    ensures
        first_named_from(eps, name, k) matches Some(i) ==> k <= i < eps.len() && eps[i].name == name,
    decreases eps.len() - k,
{
    if k < eps.len() {
        lemma_first_named(eps, name, k + 1);
    }
}

/// Counters restored from storage for one endpoint, by name:
/// `(name, total_requests, total_successes, latency_sum_ms)`.
pub open spec fn apply_restored(eps: Seq<EndpointView>, stat: (String, u64, u64, u64)) -> Seq<EndpointView> {
    match first_named_from(eps, stat.0@, 0) {
        Some(i) => eps.update(
            i,
            EndpointView { total_requests: stat.1, total_successes: stat.2, latency_sum_ms: stat.3, ..eps[i] },
        ),
        None => eps,
    }
}

/// The endpoints after restoring every entry of `stats` in order.
pub open spec fn restored(eps: Seq<EndpointView>, stats: Seq<(String, u64, u64, u64)>) -> Seq<EndpointView>
    decreases stats.len(),
{
    if stats.len() == 0 {
        eps
    } else {
        apply_restored(restored(eps, stats.drop_last()), stats.last())
    }
}

/// The demonstration profile given to the endpoint at position `i`:
/// `(healthy, consecutive_failures, total_requests, total_successes, latency_sum_ms)`,
/// cycling through four profiles.
pub open spec fn demo_profile(i: nat) -> (bool, u32, u64, u64, u64) {
    let p = i % 4;
    if p == 0 {
        (true, 0, 1248, 1241, 312_000)
    } else if p == 1 {
        (true, 1, 856, 843, 428_000)
    } else if p == 2 {
        (false, 5, 412, 389, 825_000)
    } else {
        (true, 0, 2104, 2098, 442_000)
    }
}

pub open spec fn demo_endpoint(e: EndpointView, i: nat) -> EndpointView {
    let (healthy, fails, total, succ, lat) = demo_profile(i);
    EndpointView {
        healthy,
        consecutive_failures: fails,
        total_requests: total,
        total_successes: succ,
        latency_sum_ms: lat,
        last_error: if healthy { None } else { Some("Connection timeout (demo)"@) },
        ..e
    }
}

/// One endpoint as reported on the dashboard.
#[derive(Debug)]
pub struct EndpointStatus {
    pub name: String,
    pub url: String,
    pub healthy: bool,
    pub consecutive_failures: u32,
    pub total_requests: u64,
    pub total_successes: u64,
    /// `latency_sum_ms / total_successes`, or 0 before the first success.
    pub avg_latency_ms: u64,
    pub last_error: Option<String>,
    pub last_check_at: Option<String>,
}

/// Average latency over successful requests, 0 when there were none.
pub open spec fn average_latency(latency_sum_ms: u64, successes: u64) -> u64 {
    if successes == 0 {
        0
    } else {
        (latency_sum_ms / successes) as u64
    }
}

pub open spec fn status_matches(s: EndpointStatus, e: EndpointView) -> bool {
    &&& s.name@ == e.name
    &&& s.url@ == e.url
    &&& s.healthy == e.healthy
    &&& s.consecutive_failures == e.consecutive_failures
    &&& s.total_requests == e.total_requests
    &&& s.total_successes == e.total_successes
    &&& s.avg_latency_ms == average_latency(e.latency_sum_ms, e.total_successes)
    &&& opt_text(s.last_error) == e.last_error
    &&& opt_text(s.last_check_at) == e.last_check_at
}

/// The result of one manual health check of an endpoint.
#[derive(Debug)]
pub struct EndpointHealthCheckResult {
    pub name: String,
    /// Whether the endpoint answered with a 2xx status.
    pub ok: bool,
    pub latency_ms: u64,
    /// The failure description; `None` when `ok`.
    pub error: Option<String>,
}

/// An endpoint chosen for a request, with what is needed to send it and to
/// report its outcome.
#[derive(Debug)]
pub struct SelectedEndpoint {
    url: String,
    api_key: String,
    index: usize,
    name: String,
}

impl View for SelectedEndpoint {
    type V = SelectedView;

    closed spec fn view(&self) -> SelectedView {
        SelectedView { url: self.url@, api_key: self.api_key@, index: self.index, name: self.name@ }
    }
}

impl SelectedEndpoint {
    /// Builds a selection for the endpoint at `index`.
    pub fn new(url: String, api_key: String, index: usize, name: String) -> (res: SelectedEndpoint)
        ensures
            res@ == (SelectedView { url: url@, api_key: api_key@, index, name: name@ }),
    {
        SelectedEndpoint { url, api_key, index, name }
    }

    /// The upstream URL.
    pub fn url(&self) -> (res: &str)
        ensures
            res@ == self@.url,
    {
        self.url.as_str()
    }

    /// The upstream API key (empty when none is configured).
    pub fn api_key(&self) -> (res: &str)
        ensures
            res@ == self@.api_key,
    {
        self.api_key.as_str()
    }

    /// The endpoint's position in the balancer's list.
    pub fn index(&self) -> (res: usize)
        ensures
            res == self@.index,
    {
        self.index
    }

    /// The endpoint's display name.
    pub fn name(&self) -> (res: &str)
        ensures
            res@ == self@.name,
    {
        self.name.as_str()
    }
}

struct EndpointState {
    config: EndpointConfig,
    healthy: bool,
    consecutive_failures: u32,
    total_requests: u64,
    total_successes: u64,
    latency_sum_ms: u64,
    last_error: Option<String>,
    last_check_at: Option<String>,
}

impl EndpointState {
    spec fn view(&self) -> EndpointView {
        EndpointView {
            name: self.config.name@,
            url: self.config.url@,
            api_key: self.config.api_key@,
            healthy: self.healthy,
            consecutive_failures: self.consecutive_failures,
            total_requests: self.total_requests,
            total_successes: self.total_successes,
            latency_sum_ms: self.latency_sum_ms,
            last_error: opt_text(self.last_error),
            last_check_at: opt_text(self.last_check_at),
        }
    }

    fn selected(&self, index: usize) -> (res: SelectedEndpoint)
        ensures
            res@ == (SelectedView {
                url: self.view().url,
                api_key: self.view().api_key,
                index,
                name: self.view().name,
            }),
    {
        SelectedEndpoint {
            url: self.config.url.clone(),
            api_key: self.config.api_key.clone(),
            index,
            name: self.config.name.clone(),
        }
    }
}

fn display_name(configured: &String, position: usize) -> (name: String)
    requires
        position < usize::MAX,
    ensures
        name@ == endpoint_display_name(configured@, position as nat),
{
    if configured.as_str().is_empty() {
        let mut s = String::from_str("endpoint-");
        push_decimal(&mut s, (position as u64) + 1);
        s
    } else {
        configured.clone()
    }
}

fn fresh_states(configs: &Vec<EndpointConfig>) -> (states: Vec<EndpointState>)
    ensures
        states@.map_values(|e: EndpointState| e.view()) == fresh_endpoints(configs@),
{
    let mut states: Vec<EndpointState> = Vec::new();
    let n = configs.len();
    for i in 0..n
        invariant
            n == configs.len(),
            states.len() == i,
            forall|j: int| 0 <= j < i ==> #[trigger] states@[j].view() == fresh_endpoint(configs@[j], j as nat),
    {
        let c = &configs[i];
        let state = EndpointState {
            config: EndpointConfig {
                name: display_name(&c.name, i),
                url: c.url.clone(),
                api_key: c.api_key.clone(),
            },
            healthy: true,
            consecutive_failures: 0,
            total_requests: 0,
            total_successes: 0,
            latency_sum_ms: 0,
            last_error: None,
            last_check_at: None,
        };
        states.push(state);
    }
    assert(states@.map_values(|e: EndpointState| e.view()) =~= fresh_endpoints(configs@));
    states
}

/// Round-robin load balancer with failover over the configured endpoints.
pub struct LoadBalancer {
    endpoints: Vec<EndpointState>,
    current_index: usize,
    max_failures: u32,
    last_known_good: Option<usize>,
    generation: u64,
}

impl View for LoadBalancer {
    type V = BalancerView;

    closed spec fn view(&self) -> BalancerView {
        BalancerView {
            endpoints: self.endpoints@.map_values(|e: EndpointState| e.view()),
            current_index: self.current_index,
            max_failures: self.max_failures,
            last_known_good: self.last_known_good,
            generation: self.generation,
        }
    }
}

impl LoadBalancer {
    /// A balancer over `endpoints`, all healthy, with no last known good endpoint.
    pub fn new(endpoints: Vec<EndpointConfig>, max_failures: u32) -> (lb: LoadBalancer)
        ensures
            lb@ == (BalancerView {
                endpoints: fresh_endpoints(endpoints@),
                current_index: 0,
                max_failures,
                last_known_good: None,
                generation: 0,
            }),
    {
        LoadBalancer {
            endpoints: fresh_states(&endpoints),
            current_index: 0,
            max_failures,
            last_known_good: None,
            generation: 0,
        }
    }

    /// Replaces the endpoint list and the failure threshold; every endpoint
    /// starts over healthy with zeroed counters, the cursor returns to 0 and
    /// the last known good endpoint is forgotten.
    pub fn reload(&mut self, new_endpoints: Vec<EndpointConfig>, max_failures: u32)
        ensures
            final(self)@ == (BalancerView {
                endpoints: fresh_endpoints(new_endpoints@),
                current_index: 0,
                max_failures,
                last_known_good: None,
                generation: old(self)@.generation.wrapping_add(1),
            }),
    {
        self.max_failures = max_failures;
        self.endpoints = fresh_states(&new_endpoints);
        self.last_known_good = None;
        self.current_index = 0;
        self.generation = self.generation.wrapping_add(1);
    }

    /// The number of endpoints.
    pub fn endpoint_count(&self) -> (n: usize)
        ensures
            n == self@.endpoints.len(),
    {
        self.endpoints.len()
    }

    /// The reload generation, to pair probe results with the list they were taken from.
    pub fn generation(&self) -> (g: u64)
        ensures
            g == self@.generation,
    {
        self.generation
    }

    /// Walks the ring from `start`, offsets `first..len`, for a healthy endpoint.
    fn scan_from(&self, start: usize, first: usize) -> (res: Option<usize>)
        requires
            start < self@.endpoints.len(),
            first <= self@.endpoints.len(),
        ensures
            match res {
                Some(i) => scan_healthy(self@.endpoints, start as int, first as nat) == Some(i as int),
                None => scan_healthy(self@.endpoints, start as int, first as nat) is None,
            },
    {
        let n = self.endpoints.len();
        let mut k = first;
        while k < n
            invariant
                n == self.endpoints.len(),
                n == self@.endpoints.len(),
                start < n,
                first <= k <= n,
                scan_healthy(self@.endpoints, start as int, first as nat)
                    == scan_healthy(self@.endpoints, start as int, k as nat),
            decreases n - k,
        {
            let idx = if k < n - start {
                start + k
            } else {
                k - (n - start)
            };
            assert(ring_index(start as int, k as int, n as int) == idx) by (nonlinear_arith)
                requires
                    start < n,
                    k < n,
                    idx == if start + k < n { start + k } else { start + k - n },
            ;
            assert(self@.endpoints[idx as int] == self.endpoints@[idx as int].view());
            if self.endpoints[idx].healthy {
                return Some(idx);
            }
            k += 1;
        }
        None
    }

    /// Picks the next endpoint: round-robin from the cursor over healthy
    /// endpoints, falling back to the last known good endpoint and then to
    /// the first one. `None` only when no endpoint is configured.
    pub fn select(&mut self) -> (res: Option<SelectedEndpoint>)
        ensures
            final(self)@ == advance_cursor(old(self)@),
            res is None <==> selection(old(self)@) is None,
            res is Some ==> res->0@ == selected_view(old(self)@, selection(old(self)@)->0),
    {
        let count = self.endpoints.len();
        if count == 0 {
            return None;
        }
        let start = self.current_index % count;
        let chosen = self.scan_from(start, 0);
        proof {
            lemma_scan_healthy(self@.endpoints, start as int, 0);
        }
        self.current_index = self.current_index.wrapping_add(1);
        let idx = match chosen {
            Some(i) => i,
            None => match self.last_known_good {
                Some(j) => if j < count {
                    j
                } else {
                    0
                },
                None => 0,
            },
        };
        assert(self@.endpoints[idx as int] == self.endpoints@[idx as int].view());
        Some(self.endpoints[idx].selected(idx))
    }

    /// Picks another healthy endpoint than `exclude`, walking the ring from
    /// just after it; used to retry a failed request once.
    pub fn select_excluding(&self, exclude: usize) -> (res: Option<SelectedEndpoint>)
        ensures
            res is None <==> exclusion_selection(self@, exclude) is None,
            res is Some ==> res->0@ == selected_view(self@, exclusion_selection(self@, exclude)->0),
    {
        let count = self.endpoints.len();
        if count <= 1 {
            return None;
        }
        proof {
            lemma_scan_healthy(self@.endpoints, (exclude % count) as int, 1);
        }
        match self.scan_from(exclude % count, 1) {
            Some(idx) => {
                assert(self@.endpoints[idx as int] == self.endpoints@[idx as int].view());
                Some(self.endpoints[idx].selected(idx))
            },
            None => None,
        }
    }
    /// Records a successful request on the endpoint: counters and latency
    /// sum grow, the failure streak resets, the endpoint is healthy again and
    /// becomes the last known good one. A stale index changes nothing.
    pub fn report_success(&mut self, endpoint: &SelectedEndpoint, latency_ms: u64)
        ensures
            final(self)@ == after_success(old(self)@, endpoint@.index, latency_ms),
    {
        let i = endpoint.index;
        if i >= self.endpoints.len() {
            return;
        }
        let ghost before = self@;
        self.endpoints[i].total_requests = self.endpoints[i].total_requests.wrapping_add(1);
        self.endpoints[i].total_successes = self.endpoints[i].total_successes.wrapping_add(1);
        self.endpoints[i].latency_sum_ms = self.endpoints[i].latency_sum_ms.wrapping_add(latency_ms);
        self.endpoints[i].consecutive_failures = 0;
        self.endpoints[i].healthy = true;
        self.endpoints[i].last_error = None;
        self.last_known_good = Some(i);
        assert(self@.endpoints =~= after_success(before, i, latency_ms).endpoints);
    }

    /// Records a failed request on the endpoint: the request is counted, the
    /// error kept, the failure streak grows and the endpoint turns unhealthy
    /// once the streak reaches the threshold. A stale index changes nothing.
    pub fn report_failure(&mut self, endpoint: &SelectedEndpoint, error: &str)
        ensures
            final(self)@ == after_failure(old(self)@, endpoint@.index, error@),
    {
        let i = endpoint.index;
        if i >= self.endpoints.len() {
            return;
        }
        let ghost before = self@;
        self.endpoints[i].total_requests = self.endpoints[i].total_requests.wrapping_add(1);
        self.endpoints[i].last_error = Some(error.to_owned());
        let failures = self.endpoints[i].consecutive_failures.wrapping_add(1);
        self.endpoints[i].consecutive_failures = failures;
        if failures >= self.max_failures {
            self.endpoints[i].healthy = false;
        }
        assert(self@.endpoints =~= after_failure(before, i, error@).endpoints);
    }

    /// Records what a background probe of the endpoint at `idx`, taken
    /// from the list of reload generation `generation`, found at time `now`.
    pub fn record_probe(&mut self, generation: u64, idx: usize, now: String, outcome: ProbeOutcome)
        ensures
            final(self)@ == after_probe(old(self)@, generation, idx, now@, outcome),
    {
        if generation != self.generation || idx >= self.endpoints.len() {
            return;
        }
        let ghost before = self@;
        let ghost g_outcome = outcome;
        self.endpoints[idx].last_check_at = Some(now);
        match outcome {
            ProbeOutcome::Reachable { latency_ms } => {
                self.endpoints[idx].consecutive_failures = 0;
                self.endpoints[idx].healthy = true;
                self.endpoints[idx].last_error = None;
                self.endpoints[idx].latency_sum_ms = self.endpoints[idx].latency_sum_ms.wrapping_add(latency_ms);
                self.endpoints[idx].total_requests = self.endpoints[idx].total_requests.wrapping_add(1);
                self.endpoints[idx].total_successes = self.endpoints[idx].total_successes.wrapping_add(1);
            },
            ProbeOutcome::Failed { error } => {
                self.endpoints[idx].last_error = Some(error);
                let failures = self.endpoints[idx].consecutive_failures.wrapping_add(1);
                self.endpoints[idx].consecutive_failures = failures;
                if failures >= self.max_failures {
                    self.endpoints[idx].healthy = false;
                }
            },
        }
        assert(self@.endpoints =~= after_probe(before, generation, idx, now@, g_outcome).endpoints);
    }

    /// Records the outcome of a manual health check of `target`, taken from
    /// the list of reload generation `generation`, at time `now`; `failure`
    /// holds the error when the endpoint did not answer with a 2xx status.
    /// Returns the check's result for the dashboard.
    pub fn record_check(
        &mut self,
        generation: u64,
        target: &SelectedEndpoint,
        now: String,
        latency_ms: u64,
        failure: Option<String>,
    ) -> (res: EndpointHealthCheckResult)
        ensures
            final(self)@ == after_check(old(self)@, generation, target@.index, now@, latency_ms, opt_text(failure)),
            res.name@ == target@.name,
            res.ok == (failure is None),
            res.latency_ms == latency_ms,
            opt_text(res.error) == opt_text(failure),
    {
        let idx = target.index;
        let ghost before = self@;
        let ok = failure.is_none();
        if generation == self.generation && idx < self.endpoints.len() {
            self.endpoints[idx].last_check_at = Some(now);
            self.endpoints[idx].total_requests = self.endpoints[idx].total_requests.wrapping_add(1);
            match &failure {
                None => {
                    self.endpoints[idx].total_successes = self.endpoints[idx].total_successes.wrapping_add(1);
                    self.endpoints[idx].latency_sum_ms = self.endpoints[idx].latency_sum_ms.wrapping_add(latency_ms);
                    self.endpoints[idx].consecutive_failures = 0;
                    self.endpoints[idx].healthy = true;
                    self.endpoints[idx].last_error = None;
                },
                Some(error) => {
                    self.endpoints[idx].consecutive_failures =
                        self.endpoints[idx].consecutive_failures.wrapping_add(1);
                    self.endpoints[idx].healthy = false;
                    self.endpoints[idx].last_error = Some(error.clone());
                },
            }
            assert(self@.endpoints =~= after_check(before, generation, idx, now@, latency_ms, opt_text(failure)).endpoints);
        }
        if ok {
            self.last_known_good = Some(idx);
        }
        EndpointHealthCheckResult { name: target.name.clone(), ok, latency_ms, error: failure }
    }

    /// Every endpoint as a selection, in list order; used to run checks
    /// without holding the balancer.
    pub fn snapshot(&self) -> (res: Vec<SelectedEndpoint>)
        ensures
            res@.len() == self@.endpoints.len(),
            forall|i: int| 0 <= i < res@.len() ==> #[trigger] res@[i]@ == selected_view(self@, i),
    {
        let mut res: Vec<SelectedEndpoint> = Vec::new();
        let n = self.endpoints.len();
        for i in 0..n
            invariant
                n == self.endpoints.len(),
                n == self@.endpoints.len(),
                res@.len() == i,
                forall|j: int| 0 <= j < i ==> #[trigger] res@[j]@ == selected_view(self@, j),
        {
            assert(self@.endpoints[i as int] == self.endpoints@[i as int].view());
            res.push(self.endpoints[i].selected(i));
        }
        res
    }

    /// The first endpoint named `name`, if any.
    pub fn find_by_name(&self, name: &str) -> (res: Option<SelectedEndpoint>)
        ensures
            res is None <==> first_named_from(self@.endpoints, name@, 0) is None,
            res is Some ==> res->0@ == selected_view(self@, first_named_from(self@.endpoints, name@, 0)->0),
    {
        let n = self.endpoints.len();
        let mut k: usize = 0;
        while k < n
            invariant
                n == self.endpoints.len(),
                n == self@.endpoints.len(),
                k <= n,
                first_named_from(self@.endpoints, name@, 0) == first_named_from(self@.endpoints, name@, k as nat),
            decreases n - k,
        {
            assert(self@.endpoints[k as int] == self.endpoints@[k as int].view());
            if text_eq(self.endpoints[k].config.name.as_str(), name) {
                return Some(self.endpoints[k].selected(k));
            }
            k += 1;
        }
        None
    }

    /// The position of the first endpoint named `name`.
    fn position_of(&self, name: &String) -> (res: Option<usize>)
        ensures
            match res {
                Some(i) => first_named_from(self@.endpoints, name@, 0) == Some(i as int),
                None => first_named_from(self@.endpoints, name@, 0) is None,
            },
    {
        let n = self.endpoints.len();
        let mut k: usize = 0;
        while k < n
            invariant
                n == self.endpoints.len(),
                n == self@.endpoints.len(),
                k <= n,
                first_named_from(self@.endpoints, name@, 0) == first_named_from(self@.endpoints, name@, k as nat),
            decreases n - k,
        {
            assert(self@.endpoints[k as int] == self.endpoints@[k as int].view());
            if self.endpoints[k].config.name == *name {
                return Some(k);
            }
            k += 1;
        }
        None
    }

    /// Restores per-endpoint counters saved across restarts: each entry
    /// `(name, total_requests, total_successes, latency_sum_ms)` overwrites
    /// the counters of the first endpoint with that name; unknown names are
    /// skipped.
    pub fn restore_stats(&mut self, stats: &[(String, u64, u64, u64)])
        ensures
            final(self)@ == (BalancerView { endpoints: restored(old(self)@.endpoints, stats@), ..old(self)@ }),
    {
        let n = stats.len();
        for s in 0..n
            invariant
                n == stats@.len(),
                self@ == (BalancerView { endpoints: restored(old(self)@.endpoints, stats@.take(s as int)), ..old(self)@ }),
        {
            let ghost before = self@;
            let entry = &stats[s];
            assert(stats@.take(s + 1).drop_last() =~= stats@.take(s as int));
            assert(stats@.take(s + 1).last() == stats@[s as int]);
            let found = self.position_of(&entry.0);
            proof {
                lemma_first_named(self@.endpoints, entry.0@, 0);
            }
            match found {
                Some(i) => {
                    self.endpoints[i].total_requests = entry.1;
                    self.endpoints[i].total_successes = entry.2;
                    self.endpoints[i].latency_sum_ms = entry.3;
                    assert(self@.endpoints =~= apply_restored(before.endpoints, stats@[s as int]));
                },
                None => {},
            }
        }
        assert(stats@.take(n as int) =~= stats@);
    }

    /// Fills every endpoint with demonstration counters, cycling through
    /// four profiles, and marks the first endpoint as last known good.
    pub fn seed_demo_stats(&mut self)
        ensures
            final(self)@.endpoints.len() == old(self)@.endpoints.len(),
            forall|i: int| 0 <= i < old(self)@.endpoints.len() ==>
                #[trigger] final(self)@.endpoints[i] == demo_endpoint(old(self)@.endpoints[i], i as nat),
            final(self)@.last_known_good == (if old(self)@.endpoints.len() > 0 { Some(0usize) } else { old(self)@.last_known_good }),
            final(self)@.current_index == old(self)@.current_index,
            final(self)@.max_failures == old(self)@.max_failures,
            final(self)@.generation == old(self)@.generation,
    {
        let n = self.endpoints.len();
        for i in 0..n
            invariant
                n == self.endpoints.len(),
                n == old(self)@.endpoints.len(),
                self@.endpoints.len() == n,
                forall|j: int| 0 <= j < i ==> #[trigger] self@.endpoints[j] == demo_endpoint(old(self)@.endpoints[j], j as nat),
                forall|j: int| i <= j < n ==> #[trigger] self@.endpoints[j] == old(self)@.endpoints[j],
                self@.last_known_good == old(self)@.last_known_good,
                self@.current_index == old(self)@.current_index,
                self@.max_failures == old(self)@.max_failures,
                self@.generation == old(self)@.generation,
        {
            let ghost before = self@;
            assert(before.endpoints[i as int] == old(self)@.endpoints[i as int]);
            let (healthy, fails, total, succ, lat): (bool, u32, u64, u64, u64) = match i % 4 {
                0 => (true, 0, 1248, 1241, 312_000),
                1 => (true, 1, 856, 843, 428_000),
                2 => (false, 5, 412, 389, 825_000),
                _ => (true, 0, 2104, 2098, 442_000),
            };
            assert(demo_profile(i as nat) == (healthy, fails, total, succ, lat));
            self.endpoints[i].healthy = healthy;
            self.endpoints[i].consecutive_failures = fails;
            self.endpoints[i].total_requests = total;
            self.endpoints[i].total_successes = succ;
            self.endpoints[i].latency_sum_ms = lat;
            self.endpoints[i].last_error = if healthy {
                None
            } else {
                Some(String::from_str("Connection timeout (demo)"))
            };
            assert(self@.endpoints =~= before.endpoints.update(i as int, demo_endpoint(old(self)@.endpoints[i as int], i as nat)));
        }
        if n > 0 {
            self.last_known_good = Some(0);
        }
    }

    /// A snapshot of every endpoint's state for the dashboard, in list order.
    pub fn status(&self) -> (res: Vec<EndpointStatus>)
        ensures
            res@.len() == self@.endpoints.len(),
            forall|i: int| 0 <= i < res@.len() ==> status_matches(#[trigger] res@[i], self@.endpoints[i]),
    {
        let mut res: Vec<EndpointStatus> = Vec::new();
        let n = self.endpoints.len();
        for i in 0..n
            invariant
                n == self.endpoints.len(),
                n == self@.endpoints.len(),
                res@.len() == i,
                forall|j: int| 0 <= j < i ==> status_matches(#[trigger] res@[j], self@.endpoints[j]),
        {
            let ep = &self.endpoints[i];
            assert(self@.endpoints[i as int] == self.endpoints@[i as int].view());
            let avg = match ep.latency_sum_ms.checked_div(ep.total_successes) {
                Some(a) => a,
                None => 0,
            };
            res.push(EndpointStatus {
                name: ep.config.name.clone(),
                url: ep.config.url.clone(),
                healthy: ep.healthy,
                consecutive_failures: ep.consecutive_failures,
                total_requests: ep.total_requests,
                total_successes: ep.total_successes,
                avg_latency_ms: avg,
                last_error: clone_opt(&ep.last_error),
                last_check_at: clone_opt(&ep.last_check_at),
            });
        }
        res
    }
}

/// A copy of an optional string.
pub fn clone_opt(o: &Option<String>) -> (res: Option<String>)
    ensures
        opt_text(res) == opt_text(*o),
{
    match o {
        Some(s) => Some(s.clone()),
        None => None,
    }
}

} // verus!
