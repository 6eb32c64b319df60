use xsay::speech_quality::{
    finalize_transcript, is_known_hallucination, is_punctuation_or_symbol_only, is_silence_marker,
    language_prefers_chinese_filter, looks_like_noise_transcript,
};

#[test]
fn drops_short_latin_hallucinations_in_chinese_mode() {
    assert_eq!(finalize_transcript("The.", "zh"), None);
    assert_eq!(finalize_transcript("O.", "zh"), None);
    assert_eq!(finalize_transcript("l.", "zh"), None);
    assert_eq!(finalize_transcript("you.", "auto"), None);
}

#[test]
fn drops_symbol_only_and_common_fillers() {
    assert_eq!(finalize_transcript(".", "zh"), None);
    assert_eq!(finalize_transcript("°", "zh"), None);
    assert_eq!(finalize_transcript("好的好的。", "zh"), None);
}

#[test]
fn keeps_mixed_chinese_and_latin_content() {
    assert_eq!(
        finalize_transcript("这个 API 怎么部署。", "zh"),
        Some("这个 API 怎么部署。".to_string())
    );
    assert_eq!(finalize_transcript("API", "zh"), Some("API".to_string()));
}

#[test]
fn finalize_trims_surrounding_whitespace() {
    assert_eq!(
        finalize_transcript("  今天天气不错  \n", "zh"),
        Some("今天天气不错".to_string())
    );
}

#[test]
fn finalize_is_stable_on_kept_text() {
    let once = finalize_transcript("  明天下午三点开会。 ", "zh").unwrap();
    assert_eq!(finalize_transcript(&once, "zh"), Some(once.clone()));
}

#[test]
fn bracketed_sentinels_are_silence() {
    assert!(is_silence_marker("[BLANK_AUDIO]", "zh"));
    assert!(is_silence_marker("(silence)", "en"));
    assert!(is_silence_marker("   ", "zh"));
    assert!(!is_silence_marker("你好世界", "zh"));
}

#[test]
fn whisper_outro_is_a_known_hallucination() {
    assert!(is_known_hallucination("謝謝大家收看", "zh"));
    assert!(is_known_hallucination("嗯嗯嗯嗯嗯嗯嗯嗯嗯嗯嗯嗯", "zh"));
    assert!(!is_known_hallucination("我们下周见面讨论", "zh"));
}

#[test]
fn punctuation_only_is_detected() {
    let v: Vec<char> = "。，！".chars().collect();
    assert!(is_punctuation_or_symbol_only(&v));
    let w: Vec<char> = "好。".chars().collect();
    assert!(!is_punctuation_or_symbol_only(&w));
}

#[test]
fn chinese_filter_languages() {
    assert!(language_prefers_chinese_filter("zh"));
    assert!(language_prefers_chinese_filter("auto"));
    assert!(!language_prefers_chinese_filter("en"));
}

#[test]
fn fragments_look_like_noise() {
    assert!(looks_like_noise_transcript("嗯", "zh"));
    assert!(looks_like_noise_transcript("ok", "zh"));
    assert!(!looks_like_noise_transcript("把这个文件发给我", "zh"));
}

#[test]
fn matching_ignores_case() {
    assert!(is_known_hallucination("Thanks For Watching!", "en"));
    assert!(language_prefers_chinese_filter(" ZH "));
    assert!(language_prefers_chinese_filter("Zh-CN"));
}
