//! What language detection promises of whole classes of texts.

use vstd::prelude::*;

use crate::lang::{detected_language, is_cjk, is_hiragana, is_katakana, sample, script_counts};

verus! {

pub open spec fn is_kana(c: char) -> bool {
    is_hiragana(c) || is_katakana(c)
}

proof fn lemma_kana_cjk_counts(s: Seq<char>)
    requires
        forall|i: int| 0 <= i < s.len() ==> is_cjk(#[trigger] s[i]) || is_kana(s[i]),
    ensures
        ({
            let k = script_counts(s);
            &&& k.hangul == 0 && k.cyrillic == 0 && k.arabic == 0 && k.devanagari == 0
            &&& k.thai == 0 && k.latin == 0
            &&& (exists|i: int| 0 <= i < s.len() && is_kana(#[trigger] s[i])) ==> k.hiragana + k.katakana > 0
        }),
    decreases s.len(),
{
    if s.len() > 0 {
        let t = s.drop_last();
        assert forall|i: int| 0 <= i < t.len() implies is_cjk(#[trigger] t[i]) || is_kana(t[i]) by {
            assert(t[i] == s[i]);
        }
        lemma_kana_cjk_counts(t);
        let c = s.last();
        assert(is_cjk(s[s.len() - 1]) || is_kana(s[s.len() - 1]));
        if exists|i: int| 0 <= i < s.len() && is_kana(#[trigger] s[i]) {
            let i = choose|i: int| 0 <= i < s.len() && is_kana(#[trigger] s[i]);
            if i < s.len() - 1 {
                assert(t[i] == s[i]);
            }
        }
    }
}

/// A text made only of kana and CJK ideographs, with at least one kana
/// among the characters that detection looks at (the first 1000), is
/// Japanese, however many ideographs it holds.
pub proof fn law_kana_text_is_japanese(text: Seq<char>)
    requires
        forall|i: int| 0 <= i < text.len() ==> is_cjk(#[trigger] text[i]) || is_kana(text[i]),
        exists|i: int| 0 <= i < text.len() && i < 1000 && is_kana(#[trigger] text[i]),
    ensures
        detected_language(text) == "JA"@,
{
    let s = sample(text);
    assert forall|i: int| 0 <= i < s.len() implies is_cjk(#[trigger] s[i]) || is_kana(s[i]) by {
        assert(s[i] == text[i]);
    }
    let j = choose|i: int| 0 <= i < text.len() && i < 1000 && is_kana(#[trigger] text[i]);
    assert(s[j] == text[j]);
    assert(is_kana(s[j]));
    lemma_kana_cjk_counts(s);
}

} // verus!
