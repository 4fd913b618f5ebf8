//! Records read from and written to the statistics database, and the
//! computations around them: the values added to the hourly aggregates,
//! the filtered log queries, and the deterministic generator of the
//! demonstration data. The database itself is driven by the caller.

use vstd::prelude::*;

use crate::text::{decimal_digits, push_decimal};

verus! {

/// One row of the request log.
#[derive(Debug, Clone)]
pub struct RequestLog {
    pub id: i64,
    /// Characters of the text (kept equal to `source_chars`).
    pub chars: i64,
    pub source_lang: String,
    pub target_lang: String,
    pub source_chars: i64,
    pub target_chars: i64,
    /// `"success"` or `"error"`.
    pub status: String,
    pub error_msg: Option<String>,
    /// Local time, `YYYY-MM-DD HH:MM:SS`.
    pub created_at: String,
    pub endpoint_name: Option<String>,
    pub latency_ms: Option<i64>,
}

/// Characters per language, as source and as target.
#[derive(Debug, Clone)]
pub struct LangStat {
    pub lang: String,
    pub source_chars: i64,
    pub target_chars: i64,
}

/// Uses of a language in one hour (or one day).
#[derive(Debug, Clone)]
pub struct LangHourlyUsage {
    /// `YYYY-MM-DD HH:00` (hourly) or `YYYY-MM-DD` (daily).
    pub hour: String,
    pub lang: String,
    pub count: i64,
}

/// One cell of an activity heatmap.
#[derive(Debug, Clone)]
pub struct HeatmapCell {
    /// Weekday name or date.
    pub x: String,
    /// Hour of the day, 0 to 23.
    pub y: u32,
    pub count: i64,
}

/// Requests in one of the timeline's equal time slices.
#[derive(Debug, Clone)]
pub struct TimelineBlock {
    /// Slice index, 0 (oldest) to 671 (newest).
    pub index: u32,
    pub count: i64,
}

/// What one logged request adds to its hourly aggregate row.
#[derive(Debug, PartialEq, Eq)]
pub struct HourlyIncrement {
    pub success: i64,
    pub error: i64,
    /// Latency added to the latency sum: that of a success, else 0.
    pub latency_sum: i64,
    /// 1 when a success with a known latency is counted in the average.
    pub latency_count: i64,
}

/// The aggregate increments of a request with `status` and `latency_ms`:
/// successes count their latency (0 when unknown) and count towards the
/// average only when it is known; `"error"` counts as an error; any other
/// status counts as neither.
pub open spec fn increment_of(status: Seq<char>, latency_ms: Option<u64>) -> HourlyIncrement {
    let success = status == "success"@;
    HourlyIncrement {
        success: if success { 1 } else { 0 },
        error: if status == "error"@ { 1 } else { 0 },
        latency_sum: if success {
            match latency_ms {
                Some(l) => (l as i64),
                None => 0,
            }
        } else {
            0
        },
        latency_count: if success && latency_ms is Some { 1 } else { 0 },
    }
}

/// Computes `increment_of`; the latency is stored as a 64-bit signed
/// integer, as the database stores it.
pub fn hourly_increment(status: &str, latency_ms: Option<u64>) -> (inc: HourlyIncrement)
    ensures
        inc == increment_of(status@, latency_ms),
{
    let success = crate::text::text_eq(status, "success");
    let error = crate::text::text_eq(status, "error");
    let latency_sum: i64 = if success {
        match latency_ms {
            Some(l) => {
                #[verifier::truncate]
                (l as i64)
            },
            None => 0,
        }
    } else {
        0
    };
    HourlyIncrement {
        success: if success { 1 } else { 0 },
        error: if error { 1 } else { 0 },
        latency_sum,
        latency_count: if success && latency_ms.is_some() { 1 } else { 0 },
    }
}

/// Chinese weekday names, Sunday first (SQLite's `%w` numbering).
pub open spec fn weekday_name_of(w: u32) -> Seq<char> {
    if w == 0 {
        "周日"@
    } else if w == 1 {
        "周一"@
    } else if w == 2 {
        "周二"@
    } else if w == 3 {
        "周三"@
    } else if w == 4 {
        "周四"@
    } else if w == 5 {
        "周五"@
    } else {
        "周六"@
    }
}

/// The name of weekday `w` (0 = Sunday, ..., 6 = Saturday).
pub fn weekday_name(w: u32) -> (name: &'static str)
    requires
        w < 7,
    ensures
        name@ == weekday_name_of(w),
{
    match w {
        0 => "周日",
        1 => "周一",
        2 => "周二",
        3 => "周三",
        4 => "周四",
        5 => "周五",
        _ => "周六",
    }
}

/// How far into the log a page starts: `(page - 1) * page_size`.
pub fn page_offset(page: u32, page_size: u32) -> (offset: u32)
    requires
        page >= 1,
        (page - 1) * page_size <= u32::MAX,
    ensures
        offset == (page - 1) * page_size,
{
    (page - 1) * page_size
}

} // verus!

verus! {

/// The WHERE clause of the paged log query: an endpoint filter and a
/// status filter, each applied only when non-empty.
pub open spec fn requests_where(endpoint: Seq<char>, status: Seq<char>) -> Seq<char> {
    if endpoint.len() > 0 && status.len() > 0 {
        " WHERE endpoint_name = ? AND status = ?"@
    } else if endpoint.len() > 0 {
        " WHERE endpoint_name = ?"@
    } else if status.len() > 0 {
        " WHERE status = ?"@
    } else {
        ""@
    }
}

/// The filter values bound to the paged log query, in placeholder order.
pub open spec fn requests_params(endpoint: Seq<char>, status: Seq<char>) -> Seq<Seq<char>> {
    let e: Seq<Seq<char>> = if endpoint.len() > 0 { seq![endpoint] } else { Seq::empty() };
    let s: Seq<Seq<char>> = if status.len() > 0 { seq![status] } else { Seq::empty() };
    e + s
}

pub open spec fn string_views(v: Seq<String>) -> Seq<Seq<char>> {
    v.map_values(|s: String| s@)
}

/// The queries of one page of the request log, newest first, optionally
/// filtered by endpoint and by status (an empty filter is no filter): the
/// count query, the page query (whose last two placeholders take the page
/// size and the offset), and the filter values.
pub fn requests_queries(endpoint: Option<&str>, status: Option<&str>) -> (res: (String, String, Vec<String>))
    ensures
        ({
            let e = match endpoint {
                Some(x) => x@,
                None => Seq::empty(),
            };
            let s = match status {
                Some(x) => x@,
                None => Seq::empty(),
            };
            &&& res.0@ == "SELECT COUNT(*) FROM translation_logs"@ + requests_where(e, s)
            &&& res.1@ == "SELECT id, chars, source_lang, target_lang, source_chars, target_chars, status, error_msg, created_at, endpoint_name, latency_ms FROM translation_logs"@
                + requests_where(e, s) + " ORDER BY id DESC LIMIT ? OFFSET ?"@
            &&& string_views(res.2@) == requests_params(e, s)
        }),
{
    proof {
        reveal_strlit("");
    }
    let e: &str = match endpoint {
        Some(x) => x,
        None => "",
    };
    let s: &str = match status {
        Some(x) => x,
        None => "",
    };
    let where_sql: &str = if !e.is_empty() && !s.is_empty() {
        " WHERE endpoint_name = ? AND status = ?"
    } else if !e.is_empty() {
        " WHERE endpoint_name = ?"
    } else if !s.is_empty() {
        " WHERE status = ?"
    } else {
        ""
    };
    let mut params: Vec<String> = Vec::new();
    if !e.is_empty() {
        params.push(e.to_owned());
    }
    if !s.is_empty() {
        params.push(s.to_owned());
    }
    let mut count_sql = String::from_str("SELECT COUNT(*) FROM translation_logs");
    count_sql.append(where_sql);
    let mut page_sql = String::from_str(
        "SELECT id, chars, source_lang, target_lang, source_chars, target_chars, status, error_msg, created_at, endpoint_name, latency_ms FROM translation_logs",
    );
    page_sql.append(where_sql);
    page_sql.append(" ORDER BY id DESC LIMIT ? OFFSET ?");
    assert(string_views(params@) =~= requests_params(e@, s@));
    (count_sql, page_sql, params)
}

/// A column the request log can be filtered on.
pub enum LogColumn {
    EndpointName,
    Status,
}

/// A filter condition `column = ?` (`equal`) or `column != ?`.
pub struct Condition {
    pub column: LogColumn,
    pub equal: bool,
}

/// The SQL text of a condition.
pub open spec fn condition_sql(c: Condition) -> Seq<char> {
    (match c.column {
        LogColumn::EndpointName => "endpoint_name"@,
        LogColumn::Status => "status"@,
    }) + if c.equal { " = ?"@ } else { " != ?"@ }
}

/// The SQL text of a WHERE clause made of `conds` joined by AND (nothing
/// when there is no condition).
pub open spec fn where_sql(conds: Seq<Condition>) -> Seq<char> {
    if conds.len() == 0 {
        ""@
    } else {
        " WHERE "@ + join(conds.map_values(|c: Condition| condition_sql(c)), " AND "@)
    }
}

/// The two columns of a log row that the paged query filters on.
pub struct LogRowKey {
    pub endpoint_name: Seq<char>,
    pub status: Seq<char>,
}

/// Whether a row satisfies condition `c` with the bound value `value`.
pub open spec fn condition_holds(c: Condition, value: Seq<char>, row: LogRowKey) -> bool {
    let field = match c.column {
        LogColumn::EndpointName => row.endpoint_name,
        LogColumn::Status => row.status,
    };
    if c.equal {
        field == value
    } else {
        field != value
    }
}

/// Whether a row satisfies every condition, the i-th bound to `values[i]`.
pub open spec fn conditions_hold(conds: Seq<Condition>, values: Seq<Seq<char>>, row: LogRowKey) -> bool {
    forall|i: int| 0 <= i < conds.len() ==> condition_holds(#[trigger] conds[i], values[i], row)
}

/// The paged log query selects exactly what its filters ask for: its WHERE
/// clause is made of conditions that, bound to its parameters, hold of a
/// row exactly when the row's endpoint equals the endpoint filter (if one
/// is given) and its status equals the status filter (if one is given).
pub proof fn law_requests_filter_selects_matching(endpoint: Seq<char>, status: Seq<char>)
    ensures
        exists|conds: Seq<Condition>|
            {
                &&& #[trigger] where_sql(conds) == requests_where(endpoint, status)
                &&& conds.len() == requests_params(endpoint, status).len()
                &&& forall|row: LogRowKey|
                    #[trigger] conditions_hold(conds, requests_params(endpoint, status), row) <==> ((endpoint.len()
                        == 0 || row.endpoint_name == endpoint) && (status.len() == 0 || row.status == status))
            },
{
    reveal_strlit("");
    reveal_strlit(" WHERE ");
    reveal_strlit(" AND ");
    reveal_strlit(" = ?");
    reveal_strlit("endpoint_name");
    reveal_strlit("status");
    reveal_strlit(" WHERE endpoint_name = ? AND status = ?");
    reveal_strlit(" WHERE endpoint_name = ?");
    reveal_strlit(" WHERE status = ?");
    let ep = Condition { column: LogColumn::EndpointName, equal: true };
    let st = Condition { column: LogColumn::Status, equal: true };
    let conds: Seq<Condition> = if endpoint.len() > 0 && status.len() > 0 {
        seq![ep, st]
    } else if endpoint.len() > 0 {
        seq![ep]
    } else if status.len() > 0 {
        seq![st]
    } else {
        Seq::empty()
    };
    let params = requests_params(endpoint, status);
    let texts = conds.map_values(|c: Condition| condition_sql(c));
    reveal_strlit("endpoint_name = ?");
    reveal_strlit("status = ?");
    assert(condition_sql(ep) =~= "endpoint_name = ?"@);
    assert(condition_sql(st) =~= "status = ?"@);
    if conds.len() == 2 {
        assert(texts.len() == 2);
        assert(texts.drop_last() =~= seq![condition_sql(ep)]);
        assert(join(texts.drop_last(), " AND "@) == condition_sql(ep));
        assert(texts.last() == condition_sql(st));
        assert(join(texts, " AND "@) == "endpoint_name = ?"@ + " AND "@ + "status = ?"@);
        assert(where_sql(conds) =~= requests_where(endpoint, status));
    } else if conds.len() == 1 {
        assert(where_sql(conds) =~= requests_where(endpoint, status));
    } else {
        assert(where_sql(conds) =~= requests_where(endpoint, status));
    }
    assert forall|row: LogRowKey|
        #[trigger] conditions_hold(conds, params, row) <==> ((endpoint.len() == 0 || row.endpoint_name == endpoint)
            && (status.len() == 0 || row.status == status)) by {
        if conditions_hold(conds, params, row) {
            if conds.len() > 0 {
                assert(condition_holds(conds[0], params[0], row));
            }
            if conds.len() > 1 {
                assert(condition_holds(conds[1], params[1], row));
            }
        }
    }
}

/// `parts` joined with `sep` between consecutive parts.
pub open spec fn join(parts: Seq<Seq<char>>, sep: Seq<char>) -> Seq<char>
    decreases parts.len(),
{
    if parts.len() == 0 {
        Seq::empty()
    } else if parts.len() == 1 {
        parts[0]
    } else {
        join(parts.drop_last(), sep) + sep + parts.last()
    }
}

/// The condition of export filter number `n` (1-based placeholder).
pub open spec fn export_condition(kind: nat, n: nat) -> Seq<char> {
    let p = "?"@ + decimal_digits(n);
    if kind == 0 {
        "created_at >= "@ + p
    } else if kind == 1 {
        "created_at <= "@ + p
    } else if kind == 2 {
        "(source_lang = "@ + p + " OR target_lang = "@ + p + ")"@
    } else {
        "status = "@ + p
    }
}

/// The filters of an export as (kind, value) pairs in order: start time
/// (0), end time (1), language matching source or target (2), status (3);
/// only those given.
pub open spec fn export_filters(filters: Seq<Option<Seq<char>>>) -> Seq<(nat, Seq<char>)>
    decreases filters.len(),
{
    if filters.len() == 0 {
        Seq::empty()
    } else {
        let before = export_filters(filters.drop_last());
        match filters.last() {
            Some(v) => before.push(((filters.len() - 1) as nat, v)),
            None => before,
        }
    }
}

/// The conditions of the given filters, numbered in order.
pub open spec fn export_conditions(fs: Seq<(nat, Seq<char>)>) -> Seq<Seq<char>> {
    Seq::new(fs.len(), |i: int| export_condition(fs[i].0, (i + 1) as nat))
}

/// The export query: at most 10000 log rows, newest first, filtered by the
/// given filters.
pub open spec fn export_sql(fs: Seq<(nat, Seq<char>)>) -> Seq<char> {
    let conds = export_conditions(fs);
    "SELECT id, chars, source_lang, target_lang, source_chars, target_chars, status, error_msg, created_at FROM translation_logs "@
        + (if conds.len() == 0 { Seq::empty() } else { "WHERE "@ + join(conds, " AND "@) })
        + " ORDER BY id DESC LIMIT 10000"@
}

fn numbered(prefix: &str, n: usize) -> (s: String)
    ensures
        s@ == prefix@ + "?"@ + decimal_digits(n as nat),
{
    let mut s = String::from_str(prefix);
    s.append("?");
    push_decimal(&mut s, n as u64);
    s
}

/// The export query for the filters `[start, end, lang, status]` and the
/// values bound to its placeholders.
pub fn export_query(start: Option<&str>, end: Option<&str>, lang: Option<&str>, status: Option<&str>) -> (res: (String, Vec<String>))
    ensures
        ({
            let fs = export_filters(seq![opt_str(start), opt_str(end), opt_str(lang), opt_str(status)]);
            &&& res.0@ == export_sql(fs)
            &&& string_views(res.1@) == Seq::new(fs.len(), |i: int| fs[i].1)
        }),
{
    let ghost given = seq![opt_str(start), opt_str(end), opt_str(lang), opt_str(status)];
    let mut conds: Vec<String> = Vec::new();
    let mut params: Vec<String> = Vec::new();
    let ghost mut fs: Seq<(nat, Seq<char>)> = Seq::empty();
    assert(given.take(0) =~= Seq::<Option<Seq<char>>>::empty());
    let inputs = [start, end, lang, status];
    for k in 0..4usize
        invariant
            inputs@ == seq![start, end, lang, status],
            given == seq![opt_str(start), opt_str(end), opt_str(lang), opt_str(status)],
            fs == export_filters(given.take(k as int)),
            conds@.len() == fs.len(),
            params@.len() == fs.len(),
            fs.len() <= k,
            forall|i: int| 0 <= i < fs.len() ==> #[trigger] conds@[i]@ == export_condition(fs[i].0, (i + 1) as nat),
            forall|i: int| 0 <= i < fs.len() ==> #[trigger] params@[i]@ == fs[i].1,
    {
        assert(given.take(k + 1).drop_last() =~= given.take(k as int));
        assert(given.take(k + 1).last() == given[k as int]);
        match inputs[k] {
            Some(v) => {
                let n = params.len() + 1;
                let cond = if k == 0 {
                    numbered("created_at >= ", n)
                } else if k == 1 {
                    numbered("created_at <= ", n)
                } else if k == 2 {
                    let p = numbered("", n);
                    let mut c = String::from_str("(source_lang = ");
                    c.append(p.as_str());
                    c.append(" OR target_lang = ");
                    c.append(p.as_str());
                    c.append(")");
                    c
                } else {
                    numbered("status = ", n)
                };
                proof {
                    reveal_strlit("");
                    assert(""@ + "?"@ + decimal_digits(n as nat) =~= "?"@ + decimal_digits(n as nat));
                    fs = fs.push((k as nat, v@));
                }
                conds.push(cond);
                params.push(v.to_owned());
            },
            None => {},
        }
    }
    assert(given.take(4) =~= given);
    let mut sql = String::from_str(
        "SELECT id, chars, source_lang, target_lang, source_chars, target_chars, status, error_msg, created_at FROM translation_logs ",
    );
    if conds.len() > 0 {
        sql.append("WHERE ");
        let joined = join_strings(&conds, " AND ");
        sql.append(joined.as_str());
    }
    sql.append(" ORDER BY id DESC LIMIT 10000");
    proof {
        reveal_strlit("");
        assert(string_views(conds@) =~= export_conditions(fs));
        assert(string_views(params@) =~= Seq::new(fs.len(), |i: int| fs[i].1));
    }
    (sql, params)
}

pub open spec fn opt_str(o: Option<&str>) -> Option<Seq<char>> {
    match o {
        Some(s) => Some(s@),
        None => None,
    }
}

/// The strings of `parts` joined with `sep`.
pub fn join_strings(parts: &Vec<String>, sep: &str) -> (res: String)
    ensures
        res@ == join(string_views(parts@), sep@),
{
    let mut res = String::new();
    let n = parts.len();
    for i in 0..n
        invariant
            n == parts@.len(),
            res@ == join(string_views(parts@).take(i as int), sep@),
    {
        let ghost views = string_views(parts@);
        assert(views.take(i + 1).drop_last() =~= views.take(i as int));
        if i > 0 {
            res.append(sep);
        }
        res.append(parts[i].as_str());
        proof {
            if i == 0 {
                assert(res@ =~= join(views.take(1), sep@));
            }
        }
    }
    assert(string_views(parts@).take(n as int) =~= string_views(parts@));
    res
}

} // verus!

verus! {

/// The multiplier of the demonstration data's linear congruential generator.
pub const LCG_MULTIPLIER: u64 = 6364136223846793005;

/// One step of the generator: `state * 6364136223846793005 + 1` modulo 2^64.
pub open spec fn lcg_step(state: u64) -> u64 {
    state.wrapping_mul(LCG_MULTIPLIER).wrapping_add(1)
}

/// The generator's state for a seed: the seed itself, or 1 for a zero seed.
pub open spec fn rng_start(seed: u64) -> u64 {
    if seed == 0 { 1 } else { seed }
}

/// The first `n` numbers a generator in state `state` hands out.
pub open spec fn draws(state: u64, n: nat) -> Seq<u64>
    decreases n,
{
    if n == 0 {
        Seq::empty()
    } else {
        seq![lcg_step(state)] + draws(lcg_step(state), (n - 1) as nat)
    }
}

/// The demonstration data is reproducible: two generators built from seeds
/// that start them alike (equal seeds, or 0 and 1) hand out the same
/// numbers, however many are drawn.
pub proof fn law_same_seed_same_draws(seed_a: u64, seed_b: u64, n: nat)
    requires
        rng_start(seed_a) == rng_start(seed_b),
    ensures
        draws(rng_start(seed_a), n) == draws(rng_start(seed_b), n),
        rng_start(0) == rng_start(1),
{
}

/// Deterministic pseudo-random numbers for the demonstration data: the
/// same seed always gives the same sequence.
pub struct SimpleRng {
    state: u64,
}

impl View for SimpleRng {
    type V = u64;

    closed spec fn view(&self) -> u64 {
        self.state
    }
}

impl SimpleRng {
    /// A generator seeded with `seed` (a zero seed is taken as 1).
    pub fn new(seed: u64) -> (rng: SimpleRng)
        ensures
            rng@ == rng_start(seed),
    {
        SimpleRng { state: if seed == 0 { 1 } else { seed } }
    }

    /// The next number: the state after one generator step.
    pub fn next_u64(&mut self) -> (n: u64)
        ensures
            n == lcg_step(old(self)@),
            final(self)@ == n,
    {
        self.state = self.state.wrapping_mul(LCG_MULTIPLIER).wrapping_add(1);
        self.state
    }

    /// The next number reduced to `0..modulo`.
    pub fn next_usize(&mut self, modulo: usize) -> (n: usize)
        requires
            modulo > 0,
        ensures
            final(self)@ == lcg_step(old(self)@),
            n == lcg_step(old(self)@) % (modulo as u64),
            n < modulo,
    {
        let r = self.next_u64() % (modulo as u64);
        r as usize
    }
}

/// Number of language pairs in the demonstration data.
pub const DEMO_PAIR_COUNT: usize = 10;

/// Which language pair a demonstration request uses, from a draw `r` in
/// `0..100` and, for the rare pairs, a second draw `extra` in `0..5`:
/// EN→ZH 40%, ZH→EN 25%, JA→ZH 10%, KO→ZH 7%, FR→ZH 6%, the other five
/// together 12%.
pub open spec fn demo_pair_choice(r: nat, extra: nat) -> nat {
    if r < 40 {
        0
    } else if r < 65 {
        1
    } else if r < 75 {
        2
    } else if r < 82 {
        3
    } else if r < 88 {
        4
    } else {
        5 + extra
    }
}

/// Draws the language pair of a demonstration request.
pub fn demo_pair_index(rng: &mut SimpleRng) -> (idx: usize)
    ensures
        idx < DEMO_PAIR_COUNT,
        ({
            let r = lcg_step(old(rng)@) % 100;
            &&& r < 88 ==> idx == demo_pair_choice(r as nat, 0) && final(rng)@ == lcg_step(old(rng)@)
            &&& r >= 88 ==> idx == demo_pair_choice(r as nat, (lcg_step(lcg_step(old(rng)@)) % 5) as nat)
                && final(rng)@ == lcg_step(lcg_step(old(rng)@))
        }),
{
    let r = rng.next_usize(100);
    if r < 40 {
        0
    } else if r < 65 {
        1
    } else if r < 75 {
        2
    } else if r < 82 {
        3
    } else if r < 88 {
        4
    } else {
        5 + rng.next_usize(DEMO_PAIR_COUNT - 5)
    }
}

/// Which endpoint serves a demonstration request among `count` endpoints:
/// with one endpoint (or none) always the first, without a draw; otherwise
/// the first for draws below 55, the second below 85, else a second draw
/// over all endpoints.
pub fn demo_endpoint_index(rng: &mut SimpleRng, count: usize) -> (idx: usize)
    ensures
        count <= 1 ==> idx == 0 && final(rng)@ == old(rng)@,
        count > 1 ==> idx < count && ({
            let r = lcg_step(old(rng)@) % 100;
            &&& r < 55 ==> idx == 0 && final(rng)@ == lcg_step(old(rng)@)
            &&& 55 <= r < 85 ==> idx == 1 && final(rng)@ == lcg_step(old(rng)@)
            &&& r >= 85 ==> idx == lcg_step(lcg_step(old(rng)@)) % (count as u64)
                && final(rng)@ == lcg_step(lcg_step(old(rng)@))
        }),
{
    if count <= 1 {
        return 0;
    }
    let r = rng.next_usize(100);
    if r < 55 {
        0
    } else if r < 85 {
        1
    } else {
        rng.next_usize(count)
    }
}

/// Performance profile of demonstration endpoint `i`: base latency,
/// latency spread and error multiplier, cycling fast, medium, slow.
pub fn demo_endpoint_profile(i: usize) -> (p: (u64, u64, u32))
    ensures
        i % 3 == 0 ==> p == (180u64, 120u64, 1u32),
        i % 3 == 1 ==> p == (350u64, 200u64, 2u32),
        i % 3 == 2 ==> p == (500u64, 300u64, 3u32),
{
    match i % 3 {
        0 => (180, 120, 1),
        1 => (350, 200, 2),
        _ => (500, 300, 3),
    }
}

/// Base error rate (percent) of demonstration traffic at an hour: 5 during
/// working hours (9 to 17), 1 at night (up to 5), else 3.
pub open spec fn base_error_pct(hour: u32) -> u32 {
    if 9 <= hour <= 17 {
        5
    } else if hour <= 5 {
        1
    } else {
        3
    }
}

/// Computes `base_error_pct`.
pub fn demo_base_error_pct(hour: u32) -> (pct: u32)
    ensures
        pct == base_error_pct(hour),
{
    if 9 <= hour && hour <= 17 {
        5
    } else if hour <= 5 {
        1
    } else {
        3
    }
}

/// Number of distinct upstream errors in the demonstration data.
pub const DEMO_ERROR_COUNT: usize = 6;

/// The demonstration error messages, by index.
pub open spec fn demo_error_text(i: int) -> Seq<char> {
    if i == 0 {
        "Upstream timeout after 10s"@
    } else if i == 1 {
        "HTTP 429 Too Many Requests"@
    } else if i == 2 {
        "TLS handshake failed"@
    } else if i == 3 {
        "Connection reset by peer"@
    } else if i == 4 {
        "Invalid JSON response from upstream"@
    } else {
        "DNS resolution failed"@
    }
}

/// The demonstration error message with index `i`.
pub fn demo_error_message(i: usize) -> (m: &'static str)
    requires
        i < DEMO_ERROR_COUNT,
    ensures
        m@ == demo_error_text(i as int),
{
    match i {
        0 => "Upstream timeout after 10s",
        1 => "HTTP 429 Too Many Requests",
        2 => "TLS handshake failed",
        3 => "Connection reset by peer",
        4 => "Invalid JSON response from upstream",
        _ => "DNS resolution failed",
    }
}

/// The language pairs of the demonstration data with their source length
/// range: source, target, shortest and longest text in characters.
pub open spec fn demo_pair(i: int) -> (Seq<char>, Seq<char>, i64, i64) {
    if i == 0 {
        ("EN"@, "ZH"@, 60, 800)
    } else if i == 1 {
        ("ZH"@, "EN"@, 30, 400)
    } else if i == 2 {
        ("JA"@, "ZH"@, 40, 500)
    } else if i == 3 {
        ("KO"@, "ZH"@, 35, 450)
    } else if i == 4 {
        ("FR"@, "ZH"@, 80, 900)
    } else if i == 5 {
        ("DE"@, "ZH"@, 90, 1000)
    } else if i == 6 {
        ("ES"@, "EN"@, 70, 750)
    } else if i == 7 {
        ("RU"@, "ZH"@, 60, 600)
    } else if i == 8 {
        ("EN"@, "JA"@, 60, 800)
    } else {
        ("ZH"@, "JA"@, 30, 400)
    }
}

/// The language pair with index `i` and its source length range.
pub fn demo_pair_profile(i: usize) -> (p: (&'static str, &'static str, i64, i64))
    requires
        i < DEMO_PAIR_COUNT,
    ensures
        (p.0@, p.1@, p.2, p.3) == demo_pair(i as int),
        p.2 < p.3,
{
    match i {
        0 => ("EN", "ZH", 60, 800),
        1 => ("ZH", "EN", 30, 400),
        2 => ("JA", "ZH", 40, 500),
        3 => ("KO", "ZH", 35, 450),
        4 => ("FR", "ZH", 80, 900),
        5 => ("DE", "ZH", 90, 1000),
        6 => ("ES", "EN", 70, 750),
        7 => ("RU", "ZH", 60, 600),
        8 => ("EN", "JA", 60, 800),
        _ => ("ZH", "JA", 30, 400),
    }
}

/// The relative traffic of each hour of the day in the demonstration data:
/// low at night, a morning peak, a steady afternoon and a smaller evening
/// peak.
pub open spec fn hour_weight(hour: int) -> u32 {
    seq![2u32, 1, 1, 1, 2, 3, 5, 8, 12, 15, 14, 13, 11, 12, 13, 14, 12, 10, 9, 8, 7, 5, 4, 3][hour]
}

/// The traffic weight of an hour (0 to 23).
pub fn demo_hour_weight(hour: u32) -> (w: u32)
    requires
        hour < 24,
    ensures
        w == hour_weight(hour as int),
{
    let weights: [u32; 24] = [2, 1, 1, 1, 2, 3, 5, 8, 12, 15, 14, 13, 11, 12, 13, 14, 12, 10, 9, 8, 7, 5, 4, 3];
    assert(weights@ =~= seq![2u32, 1, 1, 1, 2, 3, 5, 8, 12, 15, 14, 13, 11, 12, 13, 14, 12, 10, 9, 8, 7, 5, 4, 3]);
    weights[hour as usize]
}

/// How a demonstration request ended.
pub struct DemoOutcome {
    pub is_error: bool,
    /// The error message's index (meaningful for errors only).
    pub error_index: usize,
    /// The latency recorded.
    pub latency_ms: u64,
}

/// Draws how a request of the thirty-day history ends: it fails when a
/// draw below 100 falls under the hour's base error rate times the
/// endpoint's error multiplier; a failure then draws its message, and takes
/// 10 s for a timeout, else the latency plus 2000 ms plus a draw below 3000.
pub fn demo_history_outcome(rng: &mut SimpleRng, hour: u32, err_mult: u32, latency: u64) -> (o: DemoOutcome)
    requires
        err_mult <= 1000,
        latency <= u64::MAX - 5000,
    ensures
        ({
            let s1 = lcg_step(old(rng)@);
            let s2 = lcg_step(s1);
            let s3 = lcg_step(s2);
            &&& o.is_error == (s1 % 100 < base_error_pct(hour) * err_mult)
            &&& !o.is_error ==> o.latency_ms == latency && final(rng)@ == s1
            &&& o.is_error ==> o.error_index == s2 % 6 && o.error_index < DEMO_ERROR_COUNT
            &&& o.is_error && o.error_index == 0 ==> o.latency_ms == 10000 && final(rng)@ == s2
            &&& o.is_error && o.error_index != 0 ==> o.latency_ms == latency + 2000 + s3 % 3000
                && final(rng)@ == s3
        }),
{
    let error_pct = demo_base_error_pct(hour) * err_mult;
    let is_error = rng.next_usize(100) < error_pct as usize;
    if is_error {
        let err_idx = rng.next_usize(DEMO_ERROR_COUNT);
        let err_latency = if err_idx == 0 {
            10000
        } else {
            latency + 2000 + rng.next_usize(3000) as u64
        };
        DemoOutcome { is_error: true, error_index: err_idx, latency_ms: err_latency }
    } else {
        DemoOutcome { is_error: false, error_index: 0, latency_ms: latency }
    }
}

/// Draws how a request of today's denser data ends: it fails on a draw
/// below 4 (of 100), then draws its message and takes 5 s longer.
pub fn demo_today_outcome(rng: &mut SimpleRng, latency: u64) -> (o: DemoOutcome)
    requires
        latency <= u64::MAX - 5000,
    ensures
        ({
            let s1 = lcg_step(old(rng)@);
            let s2 = lcg_step(s1);
            &&& o.is_error == (s1 % 100 < 4)
            &&& !o.is_error ==> o.latency_ms == latency && final(rng)@ == s1
            &&& o.is_error ==> o.error_index == s2 % 6 && o.error_index < DEMO_ERROR_COUNT && o.latency_ms
                == latency + 5000 && final(rng)@ == s2
        }),
{
    let is_error = rng.next_usize(100) < 4;
    if is_error {
        let err_idx = rng.next_usize(DEMO_ERROR_COUNT);
        DemoOutcome { is_error: true, error_index: err_idx, latency_ms: latency + 5000 }
    } else {
        DemoOutcome { is_error: false, error_index: 0, latency_ms: latency }
    }
}

/// The cache counters set beside the demonstration data: 35% of the
/// requests (rounded down) as hits, the rest as misses.
pub fn demo_cache_split(count: i64) -> (split: (i64, i64))
    requires
        0 <= count <= i64::MAX / 35,
    ensures
        split.0 == count * 35 / 100,
        split.1 == count - split.0,
{
    let hits = count * 35 / 100;
    (hits, count - hits)
}

} // verus!
