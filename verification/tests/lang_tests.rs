use deeplx_monitor::lang::detect_language;
use deeplx_monitor::proxy::resolve_source_lang;

#[test]
fn test_detect_english() {
    assert_eq!(detect_language("Hello, world!"), "EN");
    assert_eq!(detect_language("The quick brown fox"), "EN");
}

#[test]
fn test_detect_chinese() {
    assert_eq!(detect_language("你好世界"), "ZH");
    assert_eq!(detect_language("今天天气真好"), "ZH");
}

#[test]
fn test_detect_japanese() {
    assert_eq!(detect_language("こんにちは"), "JA");
    assert_eq!(detect_language("おはようございます"), "JA");
    assert_eq!(detect_language("カタカナテスト"), "JA");
}

#[test]
fn test_detect_korean() {
    assert_eq!(detect_language("안녕하세요"), "KO");
}

#[test]
fn test_detect_russian() {
    assert_eq!(detect_language("Привет мир"), "RU");
}

#[test]
fn test_detect_arabic() {
    assert_eq!(detect_language("مرحبا بالعالم"), "AR");
}

#[test]
fn test_detect_french() {
    assert_eq!(detect_language("Bonjour ça va très bien"), "FR");
}

#[test]
fn test_detect_german() {
    assert_eq!(detect_language("Guten Morgen über Straße"), "DE");
}

#[test]
fn test_detect_empty_string() {
    assert_eq!(detect_language(""), "EN");
}

#[test]
fn test_detect_numbers_only() {
    assert_eq!(detect_language("12345"), "EN");
}

#[test]
fn test_detect_mixed_cjk_japanese() {
    assert_eq!(detect_language("東京は美しい街です"), "JA");
}

#[test]
fn test_detect_pure_kanji_is_chinese() {
    assert_eq!(detect_language("机器学习人工智能"), "ZH");
}

#[test]
fn test_detect_other_scripts() {
    assert_eq!(detect_language("नमस्ते दुनिया"), "HI");
    assert_eq!(detect_language("สวัสดีครับ"), "TH");
    assert_eq!(detect_language("Hola señor, ¿cómo está?"), "ES");
    assert_eq!(detect_language("Olá, não são"), "PT");
}

#[test]
fn test_source_lang_respected_when_provided() {
    let text = "Hello world";
    let body_source_lang = Some("FR");
    let log_source = resolve_source_lang(body_source_lang, text);
    assert_eq!(log_source, "FR", "用户指定 source_lang='FR' 应被尊重");
}

#[test]
fn test_source_lang_fallback_to_detect_when_auto() {
    let text = "Hello world";
    let body_source_lang = Some("auto");
    let log_source = resolve_source_lang(body_source_lang, text);
    assert_eq!(log_source, "EN", "source_lang='auto' 时应 fallback 到 detect_language");
}

#[test]
fn test_source_lang_fallback_to_detect_when_empty() {
    let text = "你好世界";
    let body_source_lang = Some("");
    let log_source = resolve_source_lang(body_source_lang, text);
    assert_eq!(log_source, "ZH", "source_lang='' 时应 fallback 到 detect_language");
}

#[test]
fn test_source_lang_fallback_to_detect_when_missing() {
    let text = "こんにちは";
    let body_source_lang: Option<&str> = None;
    let log_source = resolve_source_lang(body_source_lang, text);
    assert_eq!(log_source, "JA", "source_lang 缺失时应 fallback 到 detect_language");
}

#[test]
fn test_source_lang_is_uppercased_and_auto_is_case_insensitive() {
    assert_eq!(resolve_source_lang(Some("fr"), "Hello"), "FR");
    assert_eq!(resolve_source_lang(Some("AuTo"), "안녕하세요"), "KO");
}

#[test]
fn japanese_needs_a_strict_majority() {
    assert_eq!(detect_language("あa"), "EN");
    assert_eq!(detect_language("あab"), "EN");
    assert_eq!(detect_language("ああa"), "JA");
    assert_eq!(detect_language("あ안"), "KO");
}
