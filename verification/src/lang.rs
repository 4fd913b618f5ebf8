//! Language detection from the Unicode scripts found in a text.
//!
//! Only the first 1000 characters are looked at. Kana (with any CJK
//! ideographs) decides for Japanese when it outweighs every other script;
//! otherwise the script with the most characters wins, ties going to the
//! earlier of ZH, KO, RU, AR, HI, TH, EN. A Latin text becomes FR, DE, ES or
//! PT when at least two of that language's marked letters occur (checked in
//! that order); anything unrecognised is EN.

use vstd::prelude::*;

verus! {

/// How many characters of each script a text holds.
pub struct ScriptCounts {
    pub cjk: nat,
    pub hiragana: nat,
    pub katakana: nat,
    pub hangul: nat,
    pub cyrillic: nat,
    pub arabic: nat,
    pub devanagari: nat,
    pub thai: nat,
    /// Basic Latin letters plus the marked letters below.
    pub latin: nat,
    pub french: nat,
    pub german: nat,
    pub spanish: nat,
    pub portuguese: nat,
}

pub open spec fn in_range(c: char, lo: int, hi: int) -> bool {
    lo <= (c as int) <= hi
}

pub open spec fn is_basic_latin(c: char) -> bool {
    in_range(c, 0x41, 0x5A) || in_range(c, 0x61, 0x7A)
}

pub open spec fn is_cjk(c: char) -> bool {
    in_range(c, 0x4E00, 0x9FFF) || in_range(c, 0x3400, 0x4DBF) || in_range(c, 0xF900, 0xFAFF)
}

pub open spec fn is_hiragana(c: char) -> bool {
    in_range(c, 0x3040, 0x309F)
}

pub open spec fn is_katakana(c: char) -> bool {
    in_range(c, 0x30A0, 0x30FF) || in_range(c, 0x31F0, 0x31FF)
}

pub open spec fn is_hangul(c: char) -> bool {
    in_range(c, 0xAC00, 0xD7AF) || in_range(c, 0x1100, 0x11FF)
}

pub open spec fn is_cyrillic(c: char) -> bool {
    in_range(c, 0x0400, 0x04FF)
}

pub open spec fn is_arabic(c: char) -> bool {
    in_range(c, 0x0600, 0x06FF) || in_range(c, 0x0750, 0x077F)
}

pub open spec fn is_devanagari(c: char) -> bool {
    in_range(c, 0x0900, 0x097F)
}

pub open spec fn is_thai(c: char) -> bool {
    in_range(c, 0x0E00, 0x0E7F)
}

pub open spec fn is_french_mark(c: char) -> bool {
    c == 'à' || c == 'â' || c == 'ç' || c == 'è' || c == 'é' || c == 'ê' || c == 'ë' || c == 'î'
        || c == 'ï' || c == 'ô' || c == 'ù' || c == 'û' || c == 'œ' || c == 'æ'
}

pub open spec fn is_german_mark(c: char) -> bool {
    c == 'ä' || c == 'ö' || c == 'ü' || c == 'ß'
}

pub open spec fn is_spanish_mark(c: char) -> bool {
    c == 'ñ' || c == '¿' || c == '¡'
}

pub open spec fn is_portuguese_mark(c: char) -> bool {
    c == 'ã' || c == 'õ'
}

pub open spec fn zero_counts() -> ScriptCounts {
    ScriptCounts {
        cjk: 0,
        hiragana: 0,
        katakana: 0,
        hangul: 0,
        cyrillic: 0,
        arabic: 0,
        devanagari: 0,
        thai: 0,
        latin: 0,
        french: 0,
        german: 0,
        spanish: 0,
        portuguese: 0,
    }
}

/// The counts after seeing one more character. The script ranges are
/// disjoint; a marked Latin letter counts as Latin and for its language.
pub open spec fn count_char(k: ScriptCounts, c: char) -> ScriptCounts {
    if is_basic_latin(c) {
        ScriptCounts { latin: k.latin + 1, ..k }
    } else if is_cjk(c) {
        ScriptCounts { cjk: k.cjk + 1, ..k }
    } else if is_hiragana(c) {
        ScriptCounts { hiragana: k.hiragana + 1, ..k }
    } else if is_katakana(c) {
        ScriptCounts { katakana: k.katakana + 1, ..k }
    } else if is_hangul(c) {
        ScriptCounts { hangul: k.hangul + 1, ..k }
    } else if is_cyrillic(c) {
        ScriptCounts { cyrillic: k.cyrillic + 1, ..k }
    } else if is_arabic(c) {
        ScriptCounts { arabic: k.arabic + 1, ..k }
    } else if is_devanagari(c) {
        ScriptCounts { devanagari: k.devanagari + 1, ..k }
    } else if is_thai(c) {
        ScriptCounts { thai: k.thai + 1, ..k }
    } else if is_french_mark(c) {
        ScriptCounts { latin: k.latin + 1, french: k.french + 1, ..k }
    } else if is_german_mark(c) {
        ScriptCounts { latin: k.latin + 1, german: k.german + 1, ..k }
    } else if is_spanish_mark(c) {
        ScriptCounts { latin: k.latin + 1, spanish: k.spanish + 1, ..k }
    } else if is_portuguese_mark(c) {
        ScriptCounts { latin: k.latin + 1, portuguese: k.portuguese + 1, ..k }
    } else {
        k
    }
}

/// The script counts of a character sequence.
pub open spec fn script_counts(s: Seq<char>) -> ScriptCounts
    decreases s.len(),
{
    if s.len() == 0 {
        zero_counts()
    } else {
        count_char(script_counts(s.drop_last()), s.last())
    }
}

/// The part of a text that detection looks at: its first 1000 characters.
pub open spec fn sample(s: Seq<char>) -> Seq<char> {
    if s.len() <= 1000 {
        s
    } else {
        s.take(1000)
    }
}

/// Whether the kana-plus-ideograph total decides for Japanese: there is
/// some kana, and the total is strictly higher than every other script.
pub open spec fn japanese_wins(k: ScriptCounts) -> bool {
    let kana = k.hiragana + k.katakana;
    let total = kana + k.cjk;
    kana > 0 && total > k.hangul && total > k.cyrillic && total > k.arabic && total > k.devanagari
        && total > k.thai && total > k.latin
}

/// The Latin sub-language, when one has at least two marked letters.
pub open spec fn latin_language(k: ScriptCounts) -> Seq<char> {
    if k.french >= 2 {
        "FR"@
    } else if k.german >= 2 {
        "DE"@
    } else if k.spanish >= 2 {
        "ES"@
    } else if k.portuguese >= 2 {
        "PT"@
    } else {
        "EN"@
    }
}

/// The language detected from script counts.
pub open spec fn language_of_counts(k: ScriptCounts) -> Seq<char> {
    if japanese_wins(k) {
        "JA"@
    } else {
        if k.cjk > 0 && k.cjk >= k.hangul && k.cjk >= k.cyrillic && k.cjk >= k.arabic && k.cjk
            >= k.devanagari && k.cjk >= k.thai && k.cjk >= k.latin {
            "ZH"@
        } else if k.hangul > 0 && k.hangul > k.cjk && k.hangul >= k.cyrillic && k.hangul >= k.arabic
            && k.hangul >= k.devanagari && k.hangul >= k.thai && k.hangul >= k.latin {
            "KO"@
        } else if k.cyrillic > 0 && k.cyrillic > k.cjk && k.cyrillic > k.hangul && k.cyrillic
            >= k.arabic && k.cyrillic >= k.devanagari && k.cyrillic >= k.thai && k.cyrillic
            >= k.latin {
            "RU"@
        } else if k.arabic > 0 && k.arabic > k.cjk && k.arabic > k.hangul && k.arabic > k.cyrillic
            && k.arabic >= k.devanagari && k.arabic >= k.thai && k.arabic >= k.latin {
            "AR"@
        } else if k.devanagari > 0 && k.devanagari > k.cjk && k.devanagari > k.hangul
            && k.devanagari > k.cyrillic && k.devanagari > k.arabic && k.devanagari >= k.thai
            && k.devanagari >= k.latin {
            "HI"@
        } else if k.thai > 0 && k.thai > k.cjk && k.thai > k.hangul && k.thai > k.cyrillic && k.thai
            > k.arabic && k.thai > k.devanagari && k.thai >= k.latin {
            "TH"@
        } else if k.latin > 0 {
            latin_language(k)
        } else {
            "EN"@
        }
    }
}

/// The language detected in a text.
pub open spec fn detected_language(s: Seq<char>) -> Seq<char> {
    language_of_counts(script_counts(sample(s)))
}


proof fn lemma_counts_step(s: Seq<char>, i: int)
    requires
        0 <= i < s.len(),
    ensures
        script_counts(s.take(i + 1)) == count_char(script_counts(s.take(i)), s[i]),
{
    assert(s.take(i + 1).drop_last() =~= s.take(i));
}

/// Detects the language of `text` from the scripts of its first 1000
/// characters; returns a code such as `"EN"`, `"ZH"`, `"JA"` or `"FR"`.
pub fn detect_language(text: &str) -> (lang: &'static str)
    ensures
        lang@ == detected_language(text@),
{
    let len = text.unicode_len();
    let n = if len < 1000 {
        len
    } else {
        1000
    };
    let ghost sampled = sample(text@);
    assert(sampled.len() == n);
    let mut cjk: u32 = 0;
    let mut hiragana: u32 = 0;
    let mut katakana: u32 = 0;
    let mut hangul: u32 = 0;
    let mut cyrillic: u32 = 0;
    let mut arabic: u32 = 0;
    let mut devanagari: u32 = 0;
    let mut thai: u32 = 0;
    let mut latin: u32 = 0;
    let mut latin_fr: u32 = 0;
    let mut latin_de: u32 = 0;
    let mut latin_es: u32 = 0;
    let mut latin_pt: u32 = 0;
    let mut i: usize = 0;
    assert(sampled.take(0) =~= Seq::<char>::empty());
    while i < n
        invariant
            n <= 1000,
            n == sampled.len(),
            n <= text@.len(),
            sampled == sample(text@),
            i <= n,
            script_counts(sampled.take(i as int)) == (ScriptCounts {
                cjk: cjk as nat,
                hiragana: hiragana as nat,
                katakana: katakana as nat,
                hangul: hangul as nat,
                cyrillic: cyrillic as nat,
                arabic: arabic as nat,
                devanagari: devanagari as nat,
                thai: thai as nat,
                latin: latin as nat,
                french: latin_fr as nat,
                german: latin_de as nat,
                spanish: latin_es as nat,
                portuguese: latin_pt as nat,
            }),
            cjk <= i && hiragana <= i && katakana <= i && hangul <= i && cyrillic <= i,
            arabic <= i && devanagari <= i && thai <= i && latin <= i,
            latin_fr <= i && latin_de <= i && latin_es <= i && latin_pt <= i,
        decreases n - i,
    {
        let ch = text.get_char(i);
        assert(ch == sampled[i as int]);
        proof {
            lemma_counts_step(sampled, i as int);
        }
        let c = ch as u32;
        if (0x41 <= c && c <= 0x5A) || (0x61 <= c && c <= 0x7A) {
            latin += 1;
        } else if (0x4E00 <= c && c <= 0x9FFF) || (0x3400 <= c && c <= 0x4DBF) || (0xF900 <= c && c <= 0xFAFF) {
            cjk += 1;
        } else if 0x3040 <= c && c <= 0x309F {
            hiragana += 1;
        } else if (0x30A0 <= c && c <= 0x30FF) || (0x31F0 <= c && c <= 0x31FF) {
            katakana += 1;
        } else if (0xAC00 <= c && c <= 0xD7AF) || (0x1100 <= c && c <= 0x11FF) {
            hangul += 1;
        } else if 0x0400 <= c && c <= 0x04FF {
            cyrillic += 1;
        } else if (0x0600 <= c && c <= 0x06FF) || (0x0750 <= c && c <= 0x077F) {
            arabic += 1;
        } else if 0x0900 <= c && c <= 0x097F {
            devanagari += 1;
        } else if 0x0E00 <= c && c <= 0x0E7F {
            thai += 1;
        } else if ch == 'à' || ch == 'â' || ch == 'ç' || ch == 'è' || ch == 'é' || ch == 'ê' || ch == 'ë'
            || ch == 'î' || ch == 'ï' || ch == 'ô' || ch == 'ù' || ch == 'û' || ch == 'œ' || ch == 'æ' {
            latin += 1;
            latin_fr += 1;
        } else if ch == 'ä' || ch == 'ö' || ch == 'ü' || ch == 'ß' {
            latin += 1;
            latin_de += 1;
        } else if ch == 'ñ' || ch == '¿' || ch == '¡' {
            latin += 1;
            latin_es += 1;
        } else if ch == 'ã' || ch == 'õ' {
            latin += 1;
            latin_pt += 1;
        }
        i += 1;
    }
    assert(sampled.take(n as int) =~= sampled);
    let ghost k = script_counts(sampled);
    let ja_score = hiragana + katakana;
    if ja_score > 0 {
        let ja_total = ja_score + cjk;
        if ja_total > hangul && ja_total > cyrillic && ja_total > arabic && ja_total > devanagari
            && ja_total > thai && ja_total > latin {
            return "JA";
        }
    }
    assert(!japanese_wins(k));
    let mut best_lang: &'static str = "EN";
    let mut best_score: u32 = 0;
    let mut latin_best = false;
    if cjk > best_score {
        best_lang = "ZH";
        best_score = cjk;
    }
    if hangul > best_score {
        best_lang = "KO";
        best_score = hangul;
    }
    if cyrillic > best_score {
        best_lang = "RU";
        best_score = cyrillic;
    }
    if arabic > best_score {
        best_lang = "AR";
        best_score = arabic;
    }
    if devanagari > best_score {
        best_lang = "HI";
        best_score = devanagari;
    }
    if thai > best_score {
        best_lang = "TH";
        best_score = thai;
    }
    if latin > best_score {
        best_score = latin;
        latin_best = true;
    }
    if best_score == 0 {
        return "EN";
    }
    if latin_best {
        if latin_fr >= 2 {
            return "FR";
        }
        if latin_de >= 2 {
            return "DE";
        }
        if latin_es >= 2 {
            return "ES";
        }
        if latin_pt >= 2 {
            return "PT";
        }
        return "EN";
    }
    best_lang
}

} // verus!
