//! The decisions of the translation proxy: validating a request, resolving
//! its languages, failing over to another endpoint, and turning the
//! upstream's answer into the response, the request log entry, the cache
//! decision and the new health status. Sending requests is left to the
//! caller.

use vstd::prelude::*;

use crate::cache::{after_insert, after_lookup, lookup_result_allowed, CachedTranslation, TranslationCache};
use crate::lang::{detect_language, detected_language};
use crate::state::HealthStatus;
use crate::text::{
    char_count, decimal_digits, eq_ignore_ascii_case, push_decimal, text_eq, text_eq_ignore_ascii_case, to_upper,
    upper_case,
};
use crate::upstream::{
    after_failure, after_success, exclusion_selection, selected_view, LoadBalancer, SelectedEndpoint,
};

verus! {

/// The longest text, in characters, that is forwarded.
pub const MAX_TEXT_CHARS: usize = 50000;

/// The fields of a translation request body that the proxy reads; each is
/// present only when the body holds a string there.
pub struct TranslateRequest {
    pub text: Option<String>,
    pub target_lang: Option<String>,
    pub source_lang: Option<String>,
}

/// Why a request is refused before anything is sent upstream.
#[derive(Debug, PartialEq, Eq)]
pub enum RequestError {
    /// The text is missing or empty.
    EmptyText,
    /// The text has more than `MAX_TEXT_CHARS` characters.
    TextTooLong,
}

impl RequestError {
    /// The HTTP status of the refusal (400).
    pub fn status(&self) -> (code: u16)
        ensures
            code == 400,
    {
        400
    }

    /// The error message sent back.
    pub fn message(&self) -> (m: &'static str)
        ensures
            m@ == request_error_message(*self),
    {
        match self {
            RequestError::EmptyText => "text field is required and must not be empty",
            RequestError::TextTooLong => "text exceeds maximum length of 50000 characters",
        }
    }
}

pub open spec fn request_error_message(e: RequestError) -> Seq<char> {
    match e {
        RequestError::EmptyText => "text field is required and must not be empty"@,
        RequestError::TextTooLong => "text exceeds maximum length of 50000 characters"@,
    }
}

/// A validated request with its languages resolved.
pub struct PreparedTranslation {
    pub text: String,
    /// Number of characters of the text.
    pub source_chars: i64,
    /// The target language, uppercased; `ZH` when not given.
    pub target_lang: String,
    /// The source language: as given (uppercased) or detected.
    pub source_lang: String,
    /// Whether the cache is consulted and filled (not when `X-No-Cache: true`).
    pub use_cache: bool,
}

/// The source language used for a request: the given one, uppercased,
/// unless it is missing, empty or `auto` (in any ASCII case), in which
/// case the language is detected from the text.
pub open spec fn resolved_source_lang(given: Option<Seq<char>>, text: Seq<char>) -> Seq<char> {
    match given {
        Some(s) => if s.len() > 0 && !eq_ignore_ascii_case(s, "auto"@) {
            upper_case(s)
        } else {
            detected_language(text)
        },
        None => detected_language(text),
    }
}

pub open spec fn opt_view(o: Option<String>) -> Option<Seq<char>> {
    match o {
        Some(s) => Some(s@),
        None => None,
    }
}

/// Resolves the source language of a request.
pub fn resolve_source_lang(given: Option<&str>, text: &str) -> (lang: String)
    ensures
        lang@ == resolved_source_lang(
            match given {
                Some(s) => Some(s@),
                None => None,
            },
            text@,
        ),
{
    match given {
        Some(s) => {
            if !s.is_empty() && !text_eq_ignore_ascii_case(s, "auto") {
                return to_upper(s);
            }
        },
        None => {},
    }
    detect_language(text).to_owned()
}

/// Checks a request and resolves its languages. The text must be present,
/// non-empty and at most `MAX_TEXT_CHARS` characters long; the target
/// language defaults to `ZH`; the cache is bypassed exactly when the
/// `X-No-Cache` header is `true`.
pub fn prepare_translation(req: &TranslateRequest, no_cache_header: Option<&str>) -> (res: Result<PreparedTranslation, RequestError>)
    ensures
        ({
            let text = match req.text {
                Some(t) => t@,
                None => Seq::empty(),
            };
            match res {
                Err(e) => (e == RequestError::EmptyText && text.len() == 0) || (e == RequestError::TextTooLong
                    && text.len() > MAX_TEXT_CHARS),
                Ok(p) => {
                    &&& 0 < text.len() <= MAX_TEXT_CHARS
                    &&& p.text@ == text
                    &&& p.source_chars == text.len()
                    &&& p.target_lang@ == upper_case(
                        match req.target_lang {
                            Some(t) => t@,
                            None => "ZH"@,
                        },
                    )
                    &&& p.source_lang@ == resolved_source_lang(opt_view(req.source_lang), text)
                    &&& p.use_cache == !(no_cache_header matches Some(h) && h@ == "true"@)
                },
            }
        }),
{
    proof {
        reveal_strlit("");
    }
    let text: &str = match &req.text {
        Some(t) => t.as_str(),
        None => "",
    };
    if text.is_empty() {
        return Err(RequestError::EmptyText);
    }
    let n = text.unicode_len();
    if n > MAX_TEXT_CHARS {
        return Err(RequestError::TextTooLong);
    }
    let source_chars = char_count(text);
    let target_lang = match &req.target_lang {
        Some(t) => to_upper(t.as_str()),
        None => to_upper("ZH"),
    };
    let source_lang = match &req.source_lang {
        Some(s) => resolve_source_lang(Some(s.as_str()), text),
        None => resolve_source_lang(None, text),
    };
    let bypass = match no_cache_header {
        Some(h) => text_eq(h, "true"),
        None => false,
    };
    Ok(PreparedTranslation {
        text: text.to_owned(),
        source_chars,
        target_lang,
        source_lang,
        use_cache: !bypass,
    })
}

/// The cached response for a prepared request, looked up at time `now`;
/// a request that bypasses the cache leaves it untouched and gets nothing.
pub fn cached_response(cache: &mut TranslationCache, prepared: &PreparedTranslation, now: &str) -> (res: Option<CachedTranslation>)
    ensures
        !prepared.use_cache ==> res is None && final(cache)@ == old(cache)@,
        prepared.use_cache && !old(cache)@.enabled ==> res is None && final(cache)@ == old(cache)@,
        prepared.use_cache && old(cache)@.enabled ==> lookup_result_allowed(
            old(cache)@,
            prepared.text@,
            prepared.source_lang@,
            prepared.target_lang@,
            res,
        ) && final(cache)@ == after_lookup(
            old(cache)@,
            prepared.text@,
            prepared.source_lang@,
            prepared.target_lang@,
            now@,
            res is Some,
        ),
{
    if !prepared.use_cache {
        return None;
    }
    cache.get(prepared.text.as_str(), prepared.source_lang.as_str(), prepared.target_lang.as_str(), now)
}

/// Stores an upstream response for a prepared request when the outcome
/// says it is to be cached; otherwise the cache is left as it is.
pub fn remember_response(
    cache: &mut TranslationCache,
    prepared: &PreparedTranslation,
    outcome: &TranslationOutcome,
    response: serde_json::Value,
)
    ensures
        outcome.cache_response ==> final(cache)@ == after_insert(
            old(cache)@,
            prepared.text@,
            prepared.source_lang@,
            prepared.target_lang@,
            response,
        ),
        !outcome.cache_response ==> final(cache)@ == old(cache)@,
{
    if outcome.cache_response {
        cache.insert(prepared.text.as_str(), prepared.source_lang.as_str(), prepared.target_lang.as_str(), response);
    }
}

/// The status and message sent when no endpoint is configured.
pub fn no_endpoint_reply() -> (res: (u16, &'static str))
    ensures
        res.0 == 503,
        res.1@ == "no upstream endpoints configured"@,
{
    (503, "no upstream endpoints configured")
}

/// After the first attempt on `failed` could not reach the upstream: the
/// failure is reported, and another healthy endpoint is picked for one
/// retry, if there is one.
pub fn failover(lb: &mut LoadBalancer, failed: &SelectedEndpoint, error: &str) -> (next: Option<SelectedEndpoint>)
    ensures
        final(lb)@ == after_failure(old(lb)@, failed@.index, error@),
        next is None <==> exclusion_selection(final(lb)@, failed@.index) is None,
        next is Some ==> next->0@ == selected_view(
            final(lb)@,
            exclusion_selection(final(lb)@, failed@.index)->0,
        ),
{
    lb.report_failure(failed, error);
    lb.select_excluding(failed.index())
}

/// A JSON member that should hold text.
pub enum JsonText {
    /// The member is a string.
    Text(String),
    /// The member is some other JSON value.
    NotText,
}

/// The `data` member of an upstream response, as far as the translated
/// text's length is concerned.
pub enum DataField {
    /// `data` is a string: the translation itself.
    Text(String),
    /// `data` is an object; the members `text`, `target_text` and
    /// `translation`, where present.
    Object { text: Option<JsonText>, target_text: Option<JsonText>, translation: Option<JsonText> },
    /// `data` is missing or of another kind.
    Other,
}

pub open spec fn saturating_count(n: nat) -> int {
    if n <= i64::MAX { n as int } else { i64::MAX as int }
}

/// The length in characters of the translated text in a response: `data`
/// itself when it is a string; else, when it is an object, the first of
/// `text`, `target_text`, `translation` that is present, if it is a string;
/// else 0.
pub open spec fn translated_chars(data: DataField) -> int {
    match data {
        DataField::Text(s) => saturating_count(s@.len()),
        DataField::Object { text, target_text, translation } => {
            let chosen = if text is Some {
                text
            } else if target_text is Some {
                target_text
            } else {
                translation
            };
            match chosen {
                Some(JsonText::Text(s)) => saturating_count(s@.len()),
                _ => 0,
            }
        },
        DataField::Other => 0,
    }
}

/// The length of the translated text in a response.
pub fn target_chars(data: &DataField) -> (n: i64)
    ensures
        n == translated_chars(*data),
{
    match data {
        DataField::Text(s) => char_count(s.as_str()),
        DataField::Object { text, target_text, translation } => {
            let chosen = if text.is_some() {
                text
            } else if target_text.is_some() {
                target_text
            } else {
                translation
            };
            match chosen {
                Some(JsonText::Text(s)) => char_count(s.as_str()),
                _ => 0,
            }
        },
        DataField::Other => 0,
    }
}

/// What the attempt that counts brought back.
pub enum AttemptOutcome {
    /// The upstream answered with `status` after `latency_ms`.
    Reply { status: u16, latency_ms: u64, data: DataField },
    /// The upstream could not be reached.
    ConnectionError { message: String },
}

/// The body of the proxy's response.
pub enum ReplyBody {
    /// The upstream's body, passed on unchanged.
    Upstream,
    /// `{"error": message}`.
    Error { message: String },
}

/// The row written to the request log.
pub struct LogEntry {
    pub source_lang: String,
    pub target_lang: String,
    pub source_chars: i64,
    pub target_chars: i64,
    /// `"success"` or `"error"`.
    pub status: String,
    pub error_msg: Option<String>,
    pub endpoint_name: String,
    pub latency_ms: Option<u64>,
}

/// Everything that follows from the attempt that counts.
pub struct TranslationOutcome {
    /// The HTTP status of the response.
    pub status: u16,
    pub body: ReplyBody,
    pub log: LogEntry,
    /// Whether the upstream body is stored in the cache.
    pub cache_response: bool,
    pub health: HealthStatus,
}

pub open spec fn is_success_status(status: u16) -> bool {
    200 <= status < 300
}

/// `Upstream error {status}`.
pub open spec fn upstream_error_text(status: u16) -> Seq<char> {
    "Upstream error "@ + decimal_digits(status as nat)
}

/// `Connection error: {message}`.
pub open spec fn connection_error_text(message: Seq<char>) -> Seq<char> {
    "Connection error: "@ + message
}

/// The outcome of a request answered through `used` at time `now`.
/// A reply counts as a success for the balancer whatever its status; a 2xx
/// reply is logged as a success with the translated length and may be
/// cached; any other reply is logged as `Upstream error {status}`; a
/// connection error is logged as `Connection error: {message}` and answered
/// with 502. The health status follows the outcome.
pub open spec fn outcome_matches(o: TranslationOutcome, p: PreparedTranslation, used: Seq<char>, outcome: AttemptOutcome, now: Seq<char>) -> bool {
    &&& o.log.source_lang@ == p.source_lang@
    &&& o.log.target_lang@ == p.target_lang@
    &&& o.log.source_chars == p.source_chars
    &&& o.log.endpoint_name@ == used
    &&& o.health.checked_at matches Some(t) && t@ == now
    &&& match outcome {
        AttemptOutcome::Reply { status, latency_ms, data } => {
            &&& o.status == status
            &&& o.body is Upstream
            &&& o.log.latency_ms == Some(latency_ms)
            &&& o.health.latency_ms == Some(latency_ms)
            &&& if is_success_status(status) {
                &&& o.log.status@ == "success"@
                &&& o.log.target_chars == translated_chars(data)
                &&& o.log.error_msg is None
                &&& o.cache_response == p.use_cache
                &&& o.health.status@ == "ok"@
                &&& o.health.error is None
            } else {
                &&& o.log.status@ == "error"@
                &&& o.log.target_chars == 0
                &&& o.log.error_msg matches Some(m) && m@ == upstream_error_text(status)
                &&& !o.cache_response
                &&& o.health.status@ == "error"@
                &&& o.health.error matches Some(m) && m@ == upstream_error_text(status)
            }
        },
        AttemptOutcome::ConnectionError { message } => {
            &&& o.status == 502
            &&& o.body matches ReplyBody::Error { message: m } && m@ == connection_error_text(message@)
            &&& o.log.status@ == "error"@
            &&& o.log.target_chars == 0
            &&& o.log.error_msg matches Some(m) && m@ == connection_error_text(message@)
            &&& o.log.latency_ms is None
            &&& !o.cache_response
            &&& o.health.status@ == "error"@
            &&& o.health.latency_ms == Some(0u64)
            &&& o.health.error matches Some(m) && m@ == connection_error_text(message@)
        },
    }
}

fn upstream_error_message(status: u16) -> (s: String)
    ensures
        s@ == upstream_error_text(status),
{
    let mut s = String::from_str("Upstream error ");
    push_decimal(&mut s, status as u64);
    s
}

fn connection_error_message(message: &str) -> (s: String)
    ensures
        s@ == connection_error_text(message@),
{
    let mut s = String::from_str("Connection error: ");
    s.append(message);
    s
}

/// Settles a request answered through `used`: reports a reply to the
/// balancer as a success, and builds the response, the log entry, the
/// cache decision and the health status.
pub fn finish_translation(
    lb: &mut LoadBalancer,
    prepared: &PreparedTranslation,
    used: &SelectedEndpoint,
    outcome: AttemptOutcome,
    now: String,
) -> (res: TranslationOutcome)
    ensures
        final(lb)@ == (match outcome {
            AttemptOutcome::Reply { latency_ms, .. } => after_success(old(lb)@, used@.index, latency_ms),
            AttemptOutcome::ConnectionError { .. } => old(lb)@,
        }),
        outcome_matches(res, *prepared, used@.name, outcome, now@),
{
    let ghost g_outcome = outcome;
    let endpoint_name = used.name().to_owned();
    match outcome {
        AttemptOutcome::Reply { status, latency_ms, data } => {
            lb.report_success(used, latency_ms);
            if 200 <= status && status < 300 {
                let log = LogEntry {
                    source_lang: prepared.source_lang.clone(),
                    target_lang: prepared.target_lang.clone(),
                    source_chars: prepared.source_chars,
                    target_chars: target_chars(&data),
                    status: String::from_str("success"),
                    error_msg: None,
                    endpoint_name,
                    latency_ms: Some(latency_ms),
                };
                TranslationOutcome {
                    status,
                    body: ReplyBody::Upstream,
                    log,
                    cache_response: prepared.use_cache,
                    health: HealthStatus {
                        status: String::from_str("ok"),
                        latency_ms: Some(latency_ms),
                        checked_at: Some(now),
                        error: None,
                    },
                }
            } else {
                let log = LogEntry {
                    source_lang: prepared.source_lang.clone(),
                    target_lang: prepared.target_lang.clone(),
                    source_chars: prepared.source_chars,
                    target_chars: 0,
                    status: String::from_str("error"),
                    error_msg: Some(upstream_error_message(status)),
                    endpoint_name,
                    latency_ms: Some(latency_ms),
                };
                TranslationOutcome {
                    status,
                    body: ReplyBody::Upstream,
                    log,
                    cache_response: false,
                    health: HealthStatus {
                        status: String::from_str("error"),
                        latency_ms: Some(latency_ms),
                        checked_at: Some(now),
                        error: Some(upstream_error_message(status)),
                    },
                }
            }
        },
        AttemptOutcome::ConnectionError { message } => {
            let log = LogEntry {
                source_lang: prepared.source_lang.clone(),
                target_lang: prepared.target_lang.clone(),
                source_chars: prepared.source_chars,
                target_chars: 0,
                status: String::from_str("error"),
                error_msg: Some(connection_error_message(message.as_str())),
                endpoint_name,
                latency_ms: None,
            };
            TranslationOutcome {
                status: 502,
                body: ReplyBody::Error { message: connection_error_message(message.as_str()) },
                log,
                cache_response: false,
                health: HealthStatus {
                    status: String::from_str("error"),
                    latency_ms: Some(0),
                    checked_at: Some(now),
                    error: Some(connection_error_message(message.as_str())),
                },
            }
        },
    }
}

/// A request that bypasses the cache never has its response stored,
/// whatever the upstream answered (and `cached_response` gives it nothing).
pub proof fn law_bypass_never_stores(
    o: TranslationOutcome,
    p: PreparedTranslation,
    used: Seq<char>,
    outcome: AttemptOutcome,
    now: Seq<char>,
)
    requires
        !p.use_cache,
        outcome_matches(o, p, used, outcome, now),
    ensures
        !o.cache_response,
{
}

/// Only a 2xx reply is ever stored in the cache.
pub proof fn law_only_success_cached(
    o: TranslationOutcome,
    p: PreparedTranslation,
    used: Seq<char>,
    outcome: AttemptOutcome,
    now: Seq<char>,
)
    requires
        outcome_matches(o, p, used, outcome, now),
        o.cache_response,
    ensures
        outcome matches AttemptOutcome::Reply { status, .. } && is_success_status(status),
        o.log.status@ == "success"@,
{
}

/// What follows an attempt to reach the upstream.
pub enum NextStep {
    /// Send the request again, to this endpoint.
    Retry(SelectedEndpoint),
    /// Settle the request with the attempt just made.
    Finish,
}

/// Decides what follows an attempt through `used` (`is_retry` when it was
/// already the retry). A reply settles the request. A first attempt that
/// could not reach the upstream is reported as a failure and retried once
/// on another healthy endpoint, if there is one; a failed retry is reported
/// and settles the request. So a request is sent at most twice.
pub fn after_attempt(lb: &mut LoadBalancer, is_retry: bool, used: &SelectedEndpoint, outcome: &AttemptOutcome) -> (next: NextStep)
    ensures
        outcome is Reply ==> next is Finish && final(lb)@ == old(lb)@,
        is_retry ==> next is Finish,
        outcome matches AttemptOutcome::ConnectionError { message } ==> final(lb)@ == after_failure(
            old(lb)@,
            used@.index,
            message@,
        ),
        (outcome is ConnectionError && !is_retry) ==> ((next is Finish <==> exclusion_selection(
            final(lb)@,
            used@.index,
        ) is None) && (next matches NextStep::Retry(n) ==> n@ == selected_view(
            final(lb)@,
            exclusion_selection(final(lb)@, used@.index)->0,
        ))),
{
    match outcome {
        AttemptOutcome::Reply { .. } => NextStep::Finish,
        AttemptOutcome::ConnectionError { message } => {
            if is_retry {
                lb.report_failure(used, message.as_str());
                NextStep::Finish
            } else {
                match failover(lb, used, message.as_str()) {
                    Some(next) => NextStep::Retry(next),
                    None => NextStep::Finish,
                }
            }
        },
    }
}

/// The `Authorization` header for an endpoint: `Bearer {api_key}`, or none
/// when the key is empty.
pub fn authorization_header(api_key: &str) -> (res: Option<String>)
    ensures
        api_key@.len() == 0 ==> res is None,
        api_key@.len() > 0 ==> (res matches Some(h) && h@ == "Bearer "@ + api_key@),
{
    if api_key.is_empty() {
        None
    } else {
        let mut h = String::from_str("Bearer ");
        h.append(api_key);
        Some(h)
    }
}

} // verus!
