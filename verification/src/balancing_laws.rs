//! Properties of endpoint selection that hold across calls: round-robin
//! order, failover to healthy endpoints, the failure threshold, and the
//! last-known-good fallback.

use vstd::prelude::*;

use crate::upstream::{
    advance_cursor, after_check, after_failure, after_probe, after_success, exclusion_selection, lemma_scan_healthy,
    ring_index, scan_healthy, selection, BalancerView, ProbeOutcome,
};

verus! {

proof fn lemma_offset_reaches(start: int, h: int, n: int) -> (o: int)
    requires
        0 <= start < n,
        0 <= h < n,
    ensures
        0 <= o < n,
        ring_index(start, o, n) == h,
{
    let o = if h >= start { h - start } else { h - start + n };
    assert(ring_index(start, o, n) == h) by (nonlinear_arith)
        requires
            0 <= start < n,
            0 <= h < n,
            o == if h >= start { h - start } else { h - start + n },
    ;
    o
}

/// With at least one endpoint, selection always yields an endpoint in range.
pub proof fn law_selection_in_range(v: BalancerView)
    requires
        v.endpoints.len() > 0,
    ensures
        selection(v) matches Some(i) && 0 <= i < v.endpoints.len(),
{
    let n = v.endpoints.len() as int;
    lemma_scan_healthy(v.endpoints, (v.current_index as int) % n, 0);
}

/// Round-robin: when the endpoint under the cursor is healthy, it is the
/// one selected.
pub proof fn law_round_robin_takes_cursor(v: BalancerView)
    requires
        v.endpoints.len() > 0,
        v.endpoints[(v.current_index as int) % (v.endpoints.len() as int)].healthy,
    ensures
        selection(v) == Some((v.current_index as int) % (v.endpoints.len() as int)),
{
    let n = v.endpoints.len() as int;
    let start = (v.current_index as int) % n;
    vstd::arithmetic::div_mod::lemma_mod_bound(v.current_index as int, n);
    assert(ring_index(start, 0, n) == start) by (nonlinear_arith)
        requires
            0 <= start < n,
    ;
}

/// The balancer after `k` selections.
pub open spec fn after_selections(v: BalancerView, k: nat) -> BalancerView
    decreases k,
{
    if k == 0 {
        v
    } else {
        advance_cursor(after_selections(v, (k - 1) as nat))
    }
}

proof fn lemma_after_selections(v: BalancerView, k: nat)
    requires
        v.endpoints.len() > 0,
        v.current_index + k <= usize::MAX,
    ensures
        after_selections(v, k) == (BalancerView { current_index: (v.current_index + k) as usize, ..v }),
    decreases k,
{
    if k > 0 {
        lemma_after_selections(v, (k - 1) as nat);
    }
}

/// Round-robin over successive calls: while every endpoint is healthy, the
/// `k`-th selection after the cursor stood at `c` picks endpoint
/// `(c + k) mod n`, so the endpoints take turns in list order.
pub proof fn law_round_robin_cycles(v: BalancerView, k: nat)
    requires
        v.endpoints.len() > 0,
        forall|i: int| 0 <= i < v.endpoints.len() ==> #[trigger] v.endpoints[i].healthy,
        v.current_index + k <= usize::MAX,
    ensures
        selection(after_selections(v, k)) == Some((v.current_index + k) % (v.endpoints.len() as int)),
{
    lemma_after_selections(v, k);
    let w = after_selections(v, k);
    let n = v.endpoints.len() as int;
    vstd::arithmetic::div_mod::lemma_mod_bound(w.current_index as int, n);
    law_round_robin_takes_cursor(w);
}

/// Failover: whenever some endpoint is healthy, the selected endpoint is
/// healthy.
pub proof fn law_selection_prefers_healthy(v: BalancerView, h: int)
    requires
        0 <= h < v.endpoints.len(),
        v.endpoints[h].healthy,
    ensures
        selection(v) matches Some(i) && 0 <= i < v.endpoints.len() && v.endpoints[i].healthy,
{
    let n = v.endpoints.len() as int;
    let start = (v.current_index as int) % n;
    vstd::arithmetic::div_mod::lemma_mod_bound(v.current_index as int, n);
    lemma_scan_healthy(v.endpoints, start, 0);
    if scan_healthy(v.endpoints, start, 0) is None {
        let o = lemma_offset_reaches(start, h, n);
        assert(!v.endpoints[ring_index(start, o, n)].healthy);
    }
}

/// Last-known-good fallback: when no endpoint is healthy, the last
/// endpoint that succeeded is selected if it is still in range, else the
/// first endpoint.
pub proof fn law_all_unhealthy_falls_back(v: BalancerView)
    requires
        v.endpoints.len() > 0,
        forall|i: int| 0 <= i < v.endpoints.len() ==> !(#[trigger] v.endpoints[i]).healthy,
    ensures
        selection(v) == (match v.last_known_good {
            Some(j) => if (j as int) < v.endpoints.len() { Some(j as int) } else { Some(0int) },
            None => Some(0int),
        }),
{
    let n = v.endpoints.len() as int;
    lemma_scan_healthy(v.endpoints, (v.current_index as int) % n, 0);
}

/// Retrying never picks the endpoint that just failed, and only picks a
/// healthy endpoint.
pub proof fn law_exclusion_avoids_failed(v: BalancerView, exclude: usize)
    ensures
        exclusion_selection(v, exclude) matches Some(i) ==> {
            &&& 0 <= i < v.endpoints.len()
            &&& i != exclude as int
            &&& v.endpoints[i].healthy
        },
{
    let n = v.endpoints.len() as int;
    if n > 1 {
        let start = (exclude as int) % n;
        vstd::arithmetic::div_mod::lemma_mod_bound(exclude as int, n);
        lemma_scan_healthy(v.endpoints, start, 1);
        if let Some(i) = exclusion_selection(v, exclude) {
            let o = choose|o: int|
                #![trigger ring_index(start, o, n)]
                1 <= o < n && i == ring_index(start, o, n) && forall|j: int|
                    1 <= j < o ==> !v.endpoints[#[trigger] ring_index(start, j, n)].healthy;
            if (exclude as int) < n {
                vstd::arithmetic::div_mod::lemma_small_mod(exclude as nat, n as nat);
                assert(ring_index(start, o, n) != start) by (nonlinear_arith)
                    requires
                        0 <= start < n,
                        1 <= o < n,
                ;
            }
        }
    }
}

/// The balancer after a sequence of failure reports `(index, error)`.
pub open spec fn after_failures(v: BalancerView, reports: Seq<(usize, Seq<char>)>) -> BalancerView
    decreases reports.len(),
{
    if reports.len() == 0 {
        v
    } else {
        let w = after_failures(v, reports.drop_last());
        after_failure(w, reports.last().0, reports.last().1)
    }
}

proof fn lemma_after_failures_frame(v: BalancerView, reports: Seq<(usize, Seq<char>)>)
    ensures
        after_failures(v, reports).endpoints.len() == v.endpoints.len(),
        after_failures(v, reports).last_known_good == v.last_known_good,
        after_failures(v, reports).max_failures == v.max_failures,
        after_failures(v, reports).current_index == v.current_index,
    decreases reports.len(),
{
    if reports.len() > 0 {
        lemma_after_failures_frame(v, reports.drop_last());
    }
}

proof fn lemma_streak(v: BalancerView, idx: usize, reports: Seq<(usize, Seq<char>)>)
    requires
        idx < v.endpoints.len(),
        v.endpoints[idx as int].consecutive_failures == 0,
        reports.len() <= v.max_failures,
        forall|k: int| 0 <= k < reports.len() ==> (#[trigger] reports[k]).0 == idx,
    ensures
        after_failures(v, reports).endpoints[idx as int].consecutive_failures == reports.len(),
        reports.len() >= v.max_failures && reports.len() > 0
            ==> !after_failures(v, reports).endpoints[idx as int].healthy,
    decreases reports.len(),
{
    lemma_after_failures_frame(v, reports);
    if reports.len() > 0 {
        let prefix = reports.drop_last();
        assert forall|k: int| 0 <= k < prefix.len() implies (#[trigger] prefix[k]).0 == idx by {
            assert(prefix[k] == reports[k]);
        }
        lemma_streak(v, idx, prefix);
        lemma_after_failures_frame(v, prefix);
        assert(reports.last().0 == idx) by {
            assert(reports[reports.len() - 1].0 == idx);
        }
    }
}

/// Failure threshold: `max_failures` (at least one) failures reported in a
/// row on an endpoint whose streak was clean leave it unhealthy, with a
/// streak of exactly `max_failures`.
pub proof fn law_threshold_marks_unhealthy(v: BalancerView, idx: usize, reports: Seq<(usize, Seq<char>)>)
    requires
        idx < v.endpoints.len(),
        v.endpoints[idx as int].consecutive_failures == 0,
        v.max_failures >= 1,
        reports.len() == v.max_failures,
        forall|k: int| 0 <= k < reports.len() ==> (#[trigger] reports[k]).0 == idx,
    ensures
        !after_failures(v, reports).endpoints[idx as int].healthy,
        after_failures(v, reports).endpoints[idx as int].consecutive_failures == v.max_failures,
{
    lemma_streak(v, idx, reports);
}

/// Recovery: one success after any number of failures leaves the endpoint
/// healthy with a clean streak and makes it the last known good endpoint.
pub proof fn law_success_recovers(v: BalancerView, reports: Seq<(usize, Seq<char>)>, idx: usize, latency_ms: u64)
    requires
        idx < v.endpoints.len(),
    ensures
        ({
            let w = after_success(after_failures(v, reports), idx, latency_ms);
            &&& w.endpoints[idx as int].healthy
            &&& w.endpoints[idx as int].consecutive_failures == 0
            &&& w.endpoints[idx as int].last_error is None
            &&& w.last_known_good == Some(idx)
        }),
{
    lemma_after_failures_frame(v, reports);
}

/// Last known good survives failures: after a success on `idx`, failures
/// reported on any endpoints keep `idx` as the fallback, and once every
/// endpoint is unhealthy `idx` is what gets selected.
pub proof fn law_last_known_good_fallback(
    v: BalancerView,
    idx: usize,
    latency_ms: u64,
    reports: Seq<(usize, Seq<char>)>,
)
    requires
        idx < v.endpoints.len(),
    ensures
        ({
            let w = after_failures(after_success(v, idx, latency_ms), reports);
            &&& w.last_known_good == Some(idx)
            &&& (forall|i: int| 0 <= i < w.endpoints.len() ==> !(#[trigger] w.endpoints[i]).healthy)
                ==> selection(w) == Some(idx as int)
        }),
{
    let s = after_success(v, idx, latency_ms);
    lemma_after_failures_frame(s, reports);
    let w = after_failures(s, reports);
    if forall|i: int| 0 <= i < w.endpoints.len() ==> !(#[trigger] w.endpoints[i]).healthy {
        law_all_unhealthy_falls_back(w);
    }
}

/// Recovery by a background probe: a probe of the current list that
/// reached endpoint `idx` leaves it healthy with a clean failure streak and
/// no error, leaves every other endpoint as it was, and selection then
/// yields a healthy endpoint.
pub proof fn law_reachable_probe_recovers(v: BalancerView, idx: usize, now: Seq<char>, latency_ms: u64)
    requires
        idx < v.endpoints.len(),
    ensures
        ({
            let w = after_probe(v, v.generation, idx, now, ProbeOutcome::Reachable { latency_ms });
            &&& w.endpoints.len() == v.endpoints.len()
            &&& w.endpoints[idx as int].healthy
            &&& w.endpoints[idx as int].consecutive_failures == 0
            &&& w.endpoints[idx as int].last_error is None
            &&& forall|j: int| 0 <= j < v.endpoints.len() && j != idx ==> #[trigger] w.endpoints[j] == v.endpoints[j]
            &&& selection(w) matches Some(i) && 0 <= i < w.endpoints.len() && w.endpoints[i].healthy
        }),
{
    let w = after_probe(v, v.generation, idx, now, ProbeOutcome::Reachable { latency_ms });
    law_selection_prefers_healthy(w, idx as int);
}

/// A failed background probe never makes an endpoint healthy: it stays
/// unhealthy if it was, and turns unhealthy once its failure streak reaches
/// the threshold.
pub proof fn law_failed_probe_never_recovers(v: BalancerView, idx: usize, now: Seq<char>, error: String)
    requires
        idx < v.endpoints.len(),
    ensures
        ({
            let w = after_probe(v, v.generation, idx, now, ProbeOutcome::Failed { error });
            &&& w.endpoints[idx as int].healthy ==> v.endpoints[idx as int].healthy
            &&& w.endpoints[idx as int].consecutive_failures >= v.max_failures ==> !w.endpoints[idx as int].healthy
            &&& w.endpoints[idx as int].last_error == Some(error@)
        }),
{
}

/// A manual check of the current list decides health at once: a success
/// leaves the endpoint healthy, with a clean streak, as the last known good
/// endpoint; a failure leaves it unhealthy with the error recorded.
pub proof fn law_manual_check_decides(
    v: BalancerView,
    idx: usize,
    now: Seq<char>,
    latency_ms: u64,
    failure: Option<Seq<char>>,
)
    requires
        idx < v.endpoints.len(),
    ensures
        ({
            let w = after_check(v, v.generation, idx, now, latency_ms, failure);
            &&& w.endpoints[idx as int].healthy <==> failure is None
            &&& w.endpoints[idx as int].last_error == failure
            &&& failure is None ==> w.endpoints[idx as int].consecutive_failures == 0 && w.last_known_good == Some(idx)
        }),
{
}

} // verus!
