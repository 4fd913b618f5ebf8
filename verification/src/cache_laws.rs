//! Properties of the translation cache that span calls: a lookup gives back
//! what was stored, a cleared cache misses, a disabled cache holds nothing
//! new, the hit log stays bounded, and the key separates language pairs.

use vstd::prelude::*;
use vstd::utf8::{encode_utf8, encode_utf8_decode_utf8};

use crate::cache::{
    after_insert, after_lookup, date_of, key_material, log_hit, lookup_result_allowed, CacheView, CachedTranslation,
    HitView, MAX_HIT_LOG,
};

verus! {

/// A lookup right after storing a response for the same text and language
/// pair yields either nothing (the store may have evicted or expired it) or
/// exactly that response.
pub proof fn law_lookup_returns_stored(
    v: CacheView,
    text: Seq<char>,
    source_lang: Seq<char>,
    target_lang: Seq<char>,
    response: serde_json::Value,
    res: Option<CachedTranslation>,
)
    requires
        v.enabled,
        lookup_result_allowed(after_insert(v, text, source_lang, target_lang, response), text, source_lang, target_lang, res),
    ensures
        res is None || res == Some(CachedTranslation { response_json: response }),
{
}

/// Storing into a disabled cache changes nothing.
pub proof fn law_disabled_insert_inert(
    v: CacheView,
    text: Seq<char>,
    source_lang: Seq<char>,
    target_lang: Seq<char>,
    response: serde_json::Value,
)
    requires
        !v.enabled,
    ensures
        after_insert(v, text, source_lang, target_lang, response) == v,
{
}

/// A cache whose store is empty (just built, reloaded or cleared) answers
/// every lookup with nothing.
pub proof fn law_empty_store_misses(
    v: CacheView,
    text: Seq<char>,
    source_lang: Seq<char>,
    target_lang: Seq<char>,
    res: Option<CachedTranslation>,
)
    requires
        v.entries == Map::<Seq<char>, CachedTranslation>::empty(),
        lookup_result_allowed(v, text, source_lang, target_lang, res),
    ensures
        res is None,
{
}

/// Each lookup adds one to exactly one of the hit and miss totals, and
/// touches no stored entry.
pub proof fn law_lookup_counts_once(
    v: CacheView,
    text: Seq<char>,
    source_lang: Seq<char>,
    target_lang: Seq<char>,
    now: Seq<char>,
    hit: bool,
)
    requires
        v.hits < u64::MAX,
        v.misses < u64::MAX,
    ensures
        ({
            let w = after_lookup(v, text, source_lang, target_lang, now, hit);
            &&& w.entries == v.entries
            &&& w.hits + w.misses == v.hits + v.misses + 1
            &&& (hit <==> w.hits == v.hits + 1)
        }),
{
}

/// The day's counters restart on the first lookup of a new day: after it,
/// they count that one lookup only, while the totals keep counting.
pub proof fn law_new_day_restarts_today(
    v: CacheView,
    text: Seq<char>,
    source_lang: Seq<char>,
    target_lang: Seq<char>,
    now: Seq<char>,
    hit: bool,
)
    requires
        date_of(now) != v.today_date,
    ensures
        ({
            let w = after_lookup(v, text, source_lang, target_lang, now, hit);
            &&& w.today_date == date_of(now)
            &&& w.today_hits == (if hit { 1u64 } else { 0u64 })
            &&& w.today_misses == (if hit { 0u64 } else { 1u64 })
            &&& w.hits == (if hit { v.hits.wrapping_add(1) } else { v.hits })
            &&& w.misses == (if hit { v.misses } else { v.misses.wrapping_add(1) })
        }),
{
}

/// The hit log never holds more than `MAX_HIT_LOG` entries; recording a hit
/// appends it as the newest entry and, when the log is full, drops only the
/// oldest one.
pub proof fn law_hit_log_bounded(log: Seq<HitView>, entry: HitView)
    requires
        log.len() <= MAX_HIT_LOG,
    ensures
        log_hit(log, entry).len() == if log.len() < MAX_HIT_LOG { log.len() + 1 } else { MAX_HIT_LOG as nat },
        log_hit(log, entry).last() == entry,
        log.len() == MAX_HIT_LOG ==> log_hit(log, entry).drop_last() == log.drop_first(),
        log.len() < MAX_HIT_LOG ==> log_hit(log, entry).drop_last() == log,
{
    assert(log_hit(log, entry).drop_last() =~= if log.len() < MAX_HIT_LOG { log } else { log.drop_first() });
}

/// The bytes hashed into a cache key tell language pairs apart: for the
/// same text, two pairs that share one language and differ in the other
/// give different key material.
pub proof fn law_key_material_separates_languages(
    text: Seq<char>,
    source_a: Seq<char>,
    target_a: Seq<char>,
    source_b: Seq<char>,
    target_b: Seq<char>,
)
    requires
        key_material(text, source_a, target_a) == key_material(text, source_b, target_b),
        source_a == source_b || target_a == target_b,
    ensures
        source_a == source_b,
        target_a == target_b,
{
    let t = encode_utf8(text);
    let sa = encode_utf8(source_a);
    let sb = encode_utf8(source_b);
    let ga = encode_utf8(target_a);
    let gb = encode_utf8(target_b);
    let ma = key_material(text, source_a, target_a);
    let mb = key_material(text, source_b, target_b);
    assert(ma.len() == t.len() + 1 + sa.len() + 1 + ga.len());
    assert(mb.len() == t.len() + 1 + sb.len() + 1 + gb.len());
    let start: int = t.len() as int + 1;
    assert(sa.len() == sb.len());
    assert(ga.len() == gb.len());
    assert(ma.subrange(start, start + sa.len()) =~= sa);
    assert(mb.subrange(start, start + sb.len()) =~= sb);
    let gstart: int = start + sa.len() + 1;
    assert(ma.subrange(gstart, ma.len() as int) =~= ga);
    assert(mb.subrange(gstart, mb.len() as int) =~= gb);
    encode_utf8_decode_utf8(source_a);
    encode_utf8_decode_utf8(source_b);
    encode_utf8_decode_utf8(target_a);
    encode_utf8_decode_utf8(target_b);
}

} // verus!
