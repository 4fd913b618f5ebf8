//! Translation cache: responses keyed by a SHA-256 digest of the text and
//! language pair, held in a `moka` cache with a time-to-live and either an
//! entry bound or a memory bound; hit and miss counters (in total and for
//! the current day) and a bounded log of recent hits.

use sha2::Digest;
use vstd::prelude::*;
use vstd::utf8::encode_utf8;

use crate::text::{append_bytes, char_prefix, hex_lower, prefix_before, text_before, to_hex_lower};

verus! {

#[verifier::external_type_specification]
#[verifier::external_body]
pub struct ExJsonValue(serde_json::Value);

#[verifier::external_type_specification]
#[verifier::external_body]
pub struct ExJsonError(serde_json::Error);

/// `Value::clone` (derived in `serde_json`): a deep copy, equal to the value copied.
pub assume_specification[ <serde_json::Value as Clone>::clone ](v: &serde_json::Value) -> (res: serde_json::Value)
    ensures
        res == *v,
;

#[verifier::external_type_specification]
#[verifier::external_body]
#[verifier::reject_recursive_types(K)]
#[verifier::reject_recursive_types(V)]
#[verifier::reject_recursive_types(S)]
pub struct ExMokaCache<K, V, S>(moka::sync::Cache<K, V, S>);

/// The longest time-to-live `moka` accepts: 1000 years, in seconds.
pub const MAX_TTL_SECS: u64 = 31_536_000_000;

/// How many recent hits the hit log keeps.
pub const MAX_HIT_LOG: usize = 100;

/// How many characters of the text a hit log entry keeps.
pub const PREVIEW_CHARS: usize = 50;

/// A cached upstream response, returned as is on a hit.
#[derive(Clone)]
pub struct CachedTranslation {
    /// The upstream's whole JSON response body.
    pub response_json: serde_json::Value,
}

/// One recorded cache hit.
#[derive(Debug)]
pub struct CacheHitEntry {
    pub source_lang: String,
    pub target_lang: String,
    /// The first 50 characters of the text.
    pub text_preview: String,
    /// When the hit happened (`YYYY-MM-DDTHH:MM:SS`).
    pub timestamp: String,
}

/// Model of a hit log entry.
pub struct HitView {
    pub source_lang: Seq<char>,
    pub target_lang: Seq<char>,
    pub text_preview: Seq<char>,
    pub timestamp: Seq<char>,
}

impl CacheHitEntry {
    pub open spec fn view(&self) -> HitView {
        HitView {
            source_lang: self.source_lang@,
            target_lang: self.target_lang@,
            text_preview: self.text_preview@,
            timestamp: self.timestamp@,
        }
    }

    /// A field-by-field copy.
    pub fn duplicate(&self) -> (res: CacheHitEntry)
        ensures
            res.view() == self.view(),
    {
        CacheHitEntry {
            source_lang: self.source_lang.clone(),
            target_lang: self.target_lang.clone(),
            text_preview: self.text_preview.clone(),
            timestamp: self.timestamp.clone(),
        }
    }
}

/// The `moka` cache that holds the translations, keyed by cache key.
pub type TranslationStore = moka::sync::Cache<String, CachedTranslation>;

/// For each key of a `moka` cache, the value most recently inserted under
/// it since the cache was built. The cache may have dropped it since
/// (time-to-live, eviction, or a zero capacity), so a lookup yields either
/// nothing or this value.
pub uninterp spec fn cache_entries(c: TranslationStore) -> Map<Seq<char>, CachedTranslation>;

/// A store holding nothing.
pub open spec fn no_entries() -> Map<Seq<char>, CachedTranslation> {
    Map::empty()
}

/// The SHA-256 digest of a byte sequence.
pub uninterp spec fn sha256_digest(data: Seq<u8>) -> Seq<u8>;

/// `sha2::Sha256::digest`: the SHA-256 digest of `data`, 32 bytes long.
#[verifier::external_body]
fn sha256(data: &[u8]) -> (digest: Vec<u8>)
    ensures
        digest@ == sha256_digest(data@),
        digest@.len() == 32,
{
    sha2::Sha256::digest(data).to_vec()
}

/// The text `serde_json::to_string` produces for a JSON value, or `None`
/// where it reports an error. It depends on the value alone.
pub uninterp spec fn json_serialization(v: serde_json::Value) -> Option<Seq<char>>;

/// `serde_json::to_string` of a JSON value: the text is
/// `json_serialization(v)`, and an error comes exactly where that is `None`.
/// What the text is, and that it never fails on a `Value`, is not stated.
#[verifier::external_body]
fn json_text(v: &serde_json::Value) -> (res: Result<String, serde_json::Error>)
    ensures
        match res {
            Ok(s) => json_serialization(*v) == Some(s@),
            Err(_) => json_serialization(*v) is None,
        },
{
    serde_json::to_string(v)
}

/// The weight of a cache entry in the memory-bounded mode: the UTF-8 byte
/// length of its serialized JSON, truncated to 32 bits, or 256 when it
/// cannot be serialized.
pub open spec fn entry_weight_of(v: serde_json::Value) -> u32 {
    match json_serialization(v) {
        Some(text) => (encode_utf8(text).len() as usize) as u32,
        None => 256,
    }
}

/// Computes `entry_weight_of` for an entry's response.
fn entry_weight(entry: &CachedTranslation) -> (weight: u32)
    ensures
        weight == entry_weight_of(entry.response_json),
{
    match json_text(&entry.response_json) {
        Ok(s) => {
            let len = s.as_str().len();
            #[verifier::truncate]
            (len as u32)
        },
        Err(_) => 256,
    }
}

/// A `moka` cache built with `time_to_live(ttl_secs)` and
/// `max_capacity(max_entries)`: it starts empty. `build` panics on a
/// time-to-live over 1000 years.
#[verifier::external_body]
fn new_entry_bounded_store(ttl_secs: u64, max_entries: u64) -> (c: TranslationStore)
    requires
        ttl_secs <= MAX_TTL_SECS,
    ensures
        cache_entries(c) == no_entries(),
{
    moka::sync::Cache::builder()
        .time_to_live(std::time::Duration::from_secs(ttl_secs))
        .max_capacity(max_entries)
        .build()
}

/// A `moka` cache built with `time_to_live(ttl_secs)`, a weigher giving
/// each entry its serialized size, and `max_capacity(max_bytes)`: it
/// starts empty. `build` panics on a time-to-live over 1000 years.
#[verifier::external_body]
fn new_memory_bounded_store(ttl_secs: u64, max_bytes: u64) -> (c: TranslationStore)
    requires
        ttl_secs <= MAX_TTL_SECS,
    ensures
        cache_entries(c) == no_entries(),
{
    moka::sync::Cache::builder()
        .time_to_live(std::time::Duration::from_secs(ttl_secs))
        .weigher(|_key: &String, value: &CachedTranslation| -> u32 { entry_weight(value) })
        .max_capacity(max_bytes)
        .build()
}

/// `Cache::get`: a copy of the value stored under `key`, if the cache
/// still holds it.
#[verifier::external_body]
fn store_get(c: &TranslationStore, key: &String) -> (res: Option<CachedTranslation>)
    ensures
        res matches Some(v) ==> cache_entries(*c).contains_key(key@) && cache_entries(*c)[key@] == v,
{
    c.get(key)
}

/// `Cache::insert`: stores `value` under `key`, replacing any earlier value.
/// It does not unwind: its only `expect` is on a channel whose receiver the
/// cache itself holds.
#[verifier::external_body]
fn store_insert(c: &mut TranslationStore, key: String, value: CachedTranslation)
    ensures
        cache_entries(*final(c)) == cache_entries(*old(c)).insert(key@, value),
    no_unwind
{
    c.insert(key, value)
}

/// `Cache::entry_count`: moka's estimate of the number of entries, which
/// may lag behind pending insertions and expirations. Its counter starts
/// at 0 when the cache is built and changes only as insertions are
/// applied, so a store with no insertion since it was built reports 0; of
/// any other store nothing is stated.
#[verifier::external_body]
fn store_entry_count(c: &TranslationStore) -> (n: u64)
    ensures
        cache_entries(*c) == no_entries() ==> n == 0,
{
    c.entry_count()
}

/// `Cache::weighted_size`: moka's estimate of the total weight of the
/// entries. Like the entry count, it starts at 0 and changes only as
/// insertions are applied, so a store with no insertion since it was built
/// reports 0; of any other store nothing is stated.
#[verifier::external_body]
fn store_weighted_size(c: &TranslationStore) -> (w: u64)
    ensures
        cache_entries(*c) == no_entries() ==> w == 0,
{
    c.weighted_size()
}

/// The bytes hashed into a cache key: the text, the source language and the
/// target language in UTF-8, separated by `|`.
pub open spec fn key_material(text: Seq<char>, source_lang: Seq<char>, target_lang: Seq<char>) -> Seq<u8> {
    encode_utf8(text) + seq![124u8] + encode_utf8(source_lang) + seq![124u8] + encode_utf8(target_lang)
}

/// The cache key of a text and language pair: the lowercase hex SHA-256
/// digest of its key material (64 characters).
pub open spec fn cache_key(text: Seq<char>, source_lang: Seq<char>, target_lang: Seq<char>) -> Seq<char> {
    hex_lower(sha256_digest(key_material(text, source_lang, target_lang)))
}

/// The date part of an ISO timestamp: everything before the `T`.
pub open spec fn date_of(timestamp: Seq<char>) -> Seq<char> {
    prefix_before(timestamp, 'T')
}

/// The day (`YYYY-MM-DD`) of a local timestamp `YYYY-MM-DDTHH:MM:SS`: the
/// part before the `T`, or all of it when there is no `T`.
pub fn today_str(now: &str) -> (day: String)
    ensures
        day@ == date_of(now@),
{
    text_before(now, 'T')
}

/// Model of the cache.
pub struct CacheView {
    pub entries: Map<Seq<char>, CachedTranslation>,
    pub hits: u64,
    pub misses: u64,
    pub today_hits: u64,
    pub today_misses: u64,
    pub today_date: Seq<char>,
    pub enabled: bool,
    pub max_entries: u64,
    pub ttl_secs: u64,
    pub max_memory_mb: u64,
    /// Recent hits, oldest first; at most `MAX_HIT_LOG` of them.
    pub hit_log: Seq<HitView>,
}

/// Counters and settings of the cache at one moment (rates are derived
/// from the counters by the caller).
#[derive(Debug)]
pub struct CacheStatsSnapshot {
    pub enabled: bool,
    pub hits: u64,
    pub misses: u64,
    pub today_hits: u64,
    pub today_misses: u64,
    /// moka's estimate of the number of entries.
    pub size: u64,
    pub max_entries: u64,
    pub ttl_secs: u64,
    pub max_memory_mb: u64,
    /// moka's estimate of the total entry weight.
    pub estimated_memory_bytes: u64,
}

/// The cache counters after looking at the date `today`: the day's counters
/// restart when the day has changed.
pub open spec fn after_day_check(v: CacheView, today: Seq<char>) -> CacheView {
    if today == v.today_date {
        v
    } else {
        CacheView { today_date: today, today_hits: 0, today_misses: 0, ..v }
    }
}

/// The hit log after recording `entry`: the oldest entry goes when full.
pub open spec fn log_hit(log: Seq<HitView>, entry: HitView) -> Seq<HitView> {
    if log.len() >= MAX_HIT_LOG {
        log.drop_first().push(entry)
    } else {
        log.push(entry)
    }
}

/// The hit log entry recorded for a lookup of `text` at time `now`.
pub open spec fn hit_entry(text: Seq<char>, source_lang: Seq<char>, target_lang: Seq<char>, now: Seq<char>) -> HitView {
    HitView {
        source_lang,
        target_lang,
        text_preview: if text.len() <= PREVIEW_CHARS { text } else { text.take(PREVIEW_CHARS as int) },
        timestamp: now,
    }
}

/// What a lookup of a text and language pair may return from a cache in
/// state `v`: nothing, or the translation last stored under its key.
pub open spec fn lookup_result_allowed(
    v: CacheView,
    text: Seq<char>,
    source_lang: Seq<char>,
    target_lang: Seq<char>,
    res: Option<CachedTranslation>,
) -> bool {
    let key = cache_key(text, source_lang, target_lang);
    res matches Some(found) ==> v.entries.contains_key(key) && v.entries[key] == found
}

/// The state of an enabled cache after a lookup at time `now` that hit
/// (`hit`) or missed: the day's counters restart if the day changed, then a
/// hit counts as a hit and is logged, a miss counts as a miss.
pub open spec fn after_lookup(
    v: CacheView,
    text: Seq<char>,
    source_lang: Seq<char>,
    target_lang: Seq<char>,
    now: Seq<char>,
    hit: bool,
) -> CacheView {
    let d = after_day_check(v, date_of(now));
    if hit {
        CacheView {
            hits: d.hits.wrapping_add(1),
            today_hits: d.today_hits.wrapping_add(1),
            hit_log: log_hit(d.hit_log, hit_entry(text, source_lang, target_lang, now)),
            ..d
        }
    } else {
        CacheView { misses: d.misses.wrapping_add(1), today_misses: d.today_misses.wrapping_add(1), ..d }
    }
}

/// The state of a cache after storing `response` for a text and language
/// pair: stored under its key when enabled, unchanged when disabled.
pub open spec fn after_insert(
    v: CacheView,
    text: Seq<char>,
    source_lang: Seq<char>,
    target_lang: Seq<char>,
    response: serde_json::Value,
) -> CacheView {
    if v.enabled {
        CacheView {
            entries: v.entries.insert(
                cache_key(text, source_lang, target_lang),
                CachedTranslation { response_json: response },
            ),
            ..v
        }
    } else {
        v
    }
}

/// Whether a byte size of `mb` megabytes fits in 64 bits.
pub open spec fn memory_limit_fits(mb: u64) -> bool {
    mb * 1024 * 1024 <= u64::MAX
}

/// The translation cache.
pub struct TranslationCache {
    store: TranslationStore,
    hits: u64,
    misses: u64,
    today_hits: u64,
    today_misses: u64,
    today_date: String,
    enabled: bool,
    max_entries: u64,
    ttl_secs: u64,
    max_memory_mb: u64,
    hit_log: Vec<CacheHitEntry>,
}

impl TranslationCache {
    #[verifier::type_invariant]
    spec fn well_formed(self) -> bool {
        &&& self.hit_log@.len() <= MAX_HIT_LOG
        &&& self.ttl_secs <= MAX_TTL_SECS
        &&& memory_limit_fits(self.max_memory_mb)
    }

    pub closed spec fn view(&self) -> CacheView {
        CacheView {
            entries: cache_entries(self.store),
            hits: self.hits,
            misses: self.misses,
            today_hits: self.today_hits,
            today_misses: self.today_misses,
            today_date: self.today_date@,
            enabled: self.enabled,
            max_entries: self.max_entries,
            ttl_secs: self.ttl_secs,
            max_memory_mb: self.max_memory_mb,
            hit_log: self.hit_log@.map_values(|e: CacheHitEntry| e.view()),
        }
    }


    /// Builds the `moka` store: bounded by memory (`max_memory_mb` MiB) when
    /// that is non-zero, else by `max_entries` entries.
    fn build_store(ttl_secs: u64, max_entries: u64, max_memory_mb: u64) -> (c: TranslationStore)
        requires
            ttl_secs <= MAX_TTL_SECS,
            memory_limit_fits(max_memory_mb),
        ensures
            cache_entries(c) == no_entries(),
    {
        if max_memory_mb > 0 {
            new_memory_bounded_store(ttl_secs, max_memory_mb * 1024 * 1024)
        } else {
            new_entry_bounded_store(ttl_secs, max_entries)
        }
    }

    /// An empty cache with zeroed counters for the day `today`.
    pub fn new(enabled: bool, ttl_secs: u64, max_entries: u64, max_memory_mb: u64, today: String) -> (c: TranslationCache)
        requires
            ttl_secs <= MAX_TTL_SECS,
            memory_limit_fits(max_memory_mb),
        ensures
            c.view() == (CacheView {
                entries: Map::empty(),
                hits: 0,
                misses: 0,
                today_hits: 0,
                today_misses: 0,
                today_date: today@,
                enabled,
                max_entries,
                ttl_secs,
                max_memory_mb,
                hit_log: Seq::empty(),
            }),
    {
        let c = TranslationCache {
            store: Self::build_store(ttl_secs, max_entries, max_memory_mb),
            hits: 0,
            misses: 0,
            today_hits: 0,
            today_misses: 0,
            today_date: today,
            enabled,
            max_entries,
            ttl_secs,
            max_memory_mb,
            hit_log: Vec::new(),
        };
        assert(c.view().hit_log =~= Seq::<HitView>::empty());
        c
    }

    /// Applies new settings: the store is rebuilt empty; counters and the
    /// hit log are kept.
    pub fn reload(&mut self, enabled: bool, ttl_secs: u64, max_entries: u64, max_memory_mb: u64)
        requires
            ttl_secs <= MAX_TTL_SECS,
            memory_limit_fits(max_memory_mb),
        ensures
            final(self).view() == (CacheView {
                entries: Map::empty(),
                enabled,
                ttl_secs,
                max_entries,
                max_memory_mb,
                ..old(self).view()
            }),
    {
        proof {
            use_type_invariant(&*self);
        }
        self.enabled = enabled;
        self.ttl_secs = ttl_secs;
        self.max_entries = max_entries;
        self.max_memory_mb = max_memory_mb;
        self.store = Self::build_store(ttl_secs, max_entries, max_memory_mb);
    }

    /// Empties the store and resets every hit and miss counter; the
    /// settings and the hit log are kept.
    pub fn clear(&mut self)
        ensures
            final(self).view() == (CacheView {
                entries: Map::empty(),
                hits: 0,
                misses: 0,
                today_hits: 0,
                today_misses: 0,
                ..old(self).view()
            }),
    {
        proof {
            use_type_invariant(&*self);
        }
        self.store = Self::build_store(self.ttl_secs, self.max_entries, self.max_memory_mb);
        self.hits = 0;
        self.misses = 0;
        self.today_hits = 0;
        self.today_misses = 0;
    }

    /// Restarts the day's counters when `today` differs from the day they
    /// were counted for.
    fn maybe_reset_today(&mut self, today: String)
        ensures
            final(self).view() == after_day_check(old(self).view(), today@),
    {
        proof {
            use_type_invariant(&*self);
        }
        if today != self.today_date {
            self.today_date = today;
            self.today_hits = 0;
            self.today_misses = 0;
        }
    }

    /// The cache key of a text and language pair.
    pub fn make_key(text: &str, source_lang: &str, target_lang: &str) -> (key: String)
        ensures
            key@ == cache_key(text@, source_lang@, target_lang@),
    {
        let mut material: Vec<u8> = Vec::new();
        append_bytes(&mut material, text.as_bytes());
        append_bytes(&mut material, &[124u8]);
        append_bytes(&mut material, source_lang.as_bytes());
        append_bytes(&mut material, &[124u8]);
        append_bytes(&mut material, target_lang.as_bytes());
        assert(material@ =~= key_material(text@, source_lang@, target_lang@));
        let digest = sha256(material.as_slice());
        to_hex_lower(digest.as_slice())
    }

    /// Looks a translation up at time `now` (`YYYY-MM-DDTHH:MM:SS`). When
    /// the cache is disabled nothing happens and `None` is returned.
    /// Otherwise the day's counters restart if the day changed; a hit
    /// counts as a hit and is logged, a miss counts as a miss.
    pub fn get(&mut self, text: &str, source_lang: &str, target_lang: &str, now: &str) -> (res: Option<CachedTranslation>)
        ensures
            !old(self).view().enabled ==> res is None && final(self).view() == old(self).view(),
            old(self).view().enabled ==> lookup_result_allowed(old(self).view(), text@, source_lang@, target_lang@, res),
            old(self).view().enabled ==> final(self).view() == after_lookup(
                old(self).view(),
                text@,
                source_lang@,
                target_lang@,
                now@,
                res is Some,
            ),
    {
        if !self.enabled {
            return None;
        }
        proof {
            use_type_invariant(&*self);
        }
        self.maybe_reset_today(today_str(now));
        proof {
            use_type_invariant(&*self);
        }
        let key = Self::make_key(text, source_lang, target_lang);
        match store_get(&self.store, &key) {
            Some(entry) => {
                self.hits = self.hits.wrapping_add(1);
                self.today_hits = self.today_hits.wrapping_add(1);
                let log_entry = CacheHitEntry {
                    source_lang: source_lang.to_owned(),
                    target_lang: target_lang.to_owned(),
                    text_preview: char_prefix(text, PREVIEW_CHARS),
                    timestamp: now.to_owned(),
                };
                let ghost before = self.hit_log@;
                let mut log: Vec<CacheHitEntry> = Vec::new();
                std::mem::swap(&mut log, &mut self.hit_log);
                if log.len() >= MAX_HIT_LOG {
                    log.remove(0);
                }
                log.push(log_entry);
                assert(log@.map_values(|e: CacheHitEntry| e.view()) =~= log_hit(
                    before.map_values(|e: CacheHitEntry| e.view()),
                    hit_entry(text@, source_lang@, target_lang@, now@),
                ));
                self.hit_log = log;
                Some(entry)
            },
            None => {
                self.misses = self.misses.wrapping_add(1);
                self.today_misses = self.today_misses.wrapping_add(1);
                None
            },
        }
    }

    /// The logged hits, newest first.
    pub fn hit_log(&self) -> (res: Vec<CacheHitEntry>)
        ensures
            res@.len() == self.view().hit_log.len(),
            forall|i: int| 0 <= i < res@.len() ==>
                #[trigger] res@[i].view() == self.view().hit_log[self.view().hit_log.len() - 1 - i],
    {
        let n = self.hit_log.len();
        let mut res: Vec<CacheHitEntry> = Vec::new();
        for i in 0..n
            invariant
                n == self.hit_log@.len(),
                n == self.view().hit_log.len(),
                res@.len() == i,
                forall|j: int| 0 <= j < i ==>
                    #[trigger] res@[j].view() == self.view().hit_log[n - 1 - j],
        {
            res.push(self.hit_log[n - 1 - i].duplicate());
        }
        res
    }

    /// Stores a translation when the cache is enabled.
    pub fn insert(&mut self, text: &str, source_lang: &str, target_lang: &str, response: serde_json::Value)
        ensures
            final(self).view() == after_insert(old(self).view(), text@, source_lang@, target_lang@, response),
    {
        proof {
            use_type_invariant(&*self);
        }
        if !self.enabled {
            return;
        }
        let key = Self::make_key(text, source_lang, target_lang);
        store_insert(&mut self.store, key, CachedTranslation { response_json: response });
    }

    /// The counters and settings for the day `today` (the day's counters
    /// restart first if the day changed).
    pub fn stats(&mut self, today: String) -> (res: CacheStatsSnapshot)
        ensures
            final(self).view() == after_day_check(old(self).view(), today@),
            res.enabled == final(self).view().enabled,
            res.hits == final(self).view().hits,
            res.misses == final(self).view().misses,
            res.today_hits == final(self).view().today_hits,
            res.today_misses == final(self).view().today_misses,
            res.max_entries == final(self).view().max_entries,
            res.ttl_secs == final(self).view().ttl_secs,
            res.max_memory_mb == final(self).view().max_memory_mb,
            final(self).view().entries == no_entries() ==> res.size == 0
                && res.estimated_memory_bytes == 0,
    {
        self.maybe_reset_today(today);
        CacheStatsSnapshot {
            enabled: self.enabled,
            hits: self.hits,
            misses: self.misses,
            today_hits: self.today_hits,
            today_misses: self.today_misses,
            size: store_entry_count(&self.store),
            max_entries: self.max_entries,
            ttl_secs: self.ttl_secs,
            max_memory_mb: self.max_memory_mb,
            estimated_memory_bytes: store_weighted_size(&self.store),
        }
    }

    /// Restores the total hit and miss counters saved across restarts.
    pub fn restore_stats(&mut self, hits: u64, misses: u64)
        ensures
            final(self).view() == (CacheView { hits, misses, ..old(self).view() }),
    {
        proof {
            use_type_invariant(&*self);
        }
        self.hits = hits;
        self.misses = misses;
    }

    /// The total hit and miss counters, for saving.
    pub fn get_raw_stats(&self) -> (res: (u64, u64))
        ensures
            res == (self.view().hits, self.view().misses),
    {
        (self.hits, self.misses)
    }
}

} // verus!
