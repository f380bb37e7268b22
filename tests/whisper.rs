use llm_server::{
    decode_should_stop, plan_language, prompt_prefix, suppress_mask, timestamp_ms, whisper_failure,
    LanguagePlan, SpecialTokens, Task, WhisperError, WhisperVariant,
};

fn special() -> SpecialTokens {
    SpecialTokens { sot: 1, transcribe: 2, translate: 3, eot: 4, no_speech: 5, no_timestamps: 100 }
}

#[test]
fn language_hint_on_english_only_model_fails() {
    let r = plan_language(false, Some("fr".to_string()));
    assert_eq!(r, Err(WhisperError::LanguageOnMonolingual));
    assert_eq!(
        WhisperError::LanguageOnMonolingual.message(),
        "a language cannot be set for non-multilingual models"
    );
    let api = whisper_failure(&WhisperError::LanguageOnMonolingual);
    assert_eq!(api.status, 400);
    assert!(api.message.contains("a language cannot be set for non-multilingual models"));
}

#[test]
fn language_plans() {
    assert_eq!(plan_language(true, None), Ok(LanguagePlan::Detect));
    assert_eq!(plan_language(false, None), Ok(LanguagePlan::NoLanguage));
    assert_eq!(
        plan_language(true, Some("fr".to_string())),
        Ok(LanguagePlan::Lookup("<|fr|>".to_string()))
    );
    assert_eq!(
        WhisperError::UnsupportedLanguage("xx".to_string()).message(),
        "language xx is not supported"
    );
    assert_eq!(WhisperError::NoSpeechToken.message(), "unable to find any non-speech token");
    assert_eq!(
        WhisperError::MissingToken("<|sot|>".to_string()).message(),
        "no token-id for <|sot|>"
    );
}

#[test]
fn prompt_prefixes() {
    let s = special();
    assert_eq!(prompt_prefix(&s, Some(50), None, false), vec![1, 50, 2, 100]);
    assert_eq!(prompt_prefix(&s, None, Some(Task::Translate), true), vec![1, 3]);
    assert_eq!(prompt_prefix(&s, None, Some(Task::Transcribe), true), vec![1, 2]);
}

#[test]
fn decoding_stops_at_eot_or_length() {
    let s = special();
    assert!(decode_should_stop(4, &s, 3, 448));
    assert!(decode_should_stop(7, &s, 449, 448));
    assert!(!decode_should_stop(7, &s, 448, 448));
}

#[test]
fn suppressed_tokens() {
    let mask = suppress_mask(6, &vec![1, 4], true, 5);
    assert_eq!(mask, vec![false, true, false, false, true, true]);
    let mask = suppress_mask(6, &vec![1, 4], false, 5);
    assert_eq!(mask, vec![false, true, false, false, true, false]);
}

#[test]
fn timestamp_tokens_count_twenty_ms() {
    assert_eq!(timestamp_ms(101, 100), 40);
    assert_eq!(timestamp_ms(150, 100), 1020);
}

#[test]
fn variants() {
    assert!(WhisperVariant::Tiny.is_multilingual());
    assert!(!WhisperVariant::TinyEn.is_multilingual());
    assert!(!WhisperVariant::DistilMediumEn.is_multilingual());
    assert_eq!(WhisperVariant::TinyEn.get_model_string(), "tiny.en");
    assert_eq!(WhisperVariant::LargeV3.get_model_string(), "large-v3");
}
