use llm_server::{
    chat_failure, load_order, ChatError, ChatModelConfig, ModelKind, TemplateError,
    WhisperModelConfig,
    default_chat_format, default_cpu, default_quantized, default_seed, listen_address,
    mel_filter_len, model_not_set, ChatFormat, Config, ModelInitError, Models,
};

#[test]
fn unknown_alias_is_model_not_set() {
    let models = Models::new();
    assert!(models.get_chat("nope".to_string()).is_none());
    assert!(models.get_whisper("nope".to_string()).is_none());
    match models.chat_for("nope".to_string()) {
        Err(e) => {
            assert_eq!(e.status, 400);
            assert_eq!(e.message, "model not set");
        }
        Ok(_) => panic!("expected an error"),
    }
    assert!(models.whisper_for("nope".to_string()).is_err());
    assert_eq!(model_not_set().message, "model not set");
}

#[test]
fn config_defaults() {
    assert_eq!(default_chat_format(), ChatFormat::ChatML);
    assert!(default_cpu());
    assert!(default_quantized());
    assert_eq!(default_seed(), 299792458);
}

#[test]
fn listen_address_prefers_arguments() {
    let config = Config {
        host: Some("0.0.0.0".to_string()),
        port: Some(9000),
        chat_configs: None,
        whisper_configs: None,
    };
    assert_eq!(listen_address(None, None, &config), ("0.0.0.0".to_string(), 9000));
    assert_eq!(
        listen_address(Some("h".to_string()), Some(1), &config),
        ("h".to_string(), 1)
    );
    let empty = Config { host: None, port: None, chat_configs: None, whisper_configs: None };
    assert_eq!(listen_address(None, None, &empty), ("localhost".to_string(), 8000));
}

#[test]
fn mel_filter_sizes() {
    assert_eq!(mel_filter_len(80), Ok(16080));
    assert_eq!(mel_filter_len(128), Ok(25728));
    assert_eq!(mel_filter_len(81), Err(ModelInitError::UnexpectedMelBins(81)));
}

#[test]
fn init_error_messages() {
    assert_eq!(
        ModelInitError::UnexpectedMelBins(81).message(),
        "unexpected num_mel_bins 81"
    );
    assert_eq!(
        ModelInitError::EosNotInVocabulary("<|im_end|>".to_string()).message(),
        "no token-id for <|im_end|>"
    );
    assert_eq!(
        llm_server::load_failure(&"chat".to_string(), "no token-id for </s>".to_string()),
        "chat: no token-id for </s>"
    );
}

#[test]
fn models_load_chat_first_in_config_order() {
    let chat = |a: &str| ChatModelConfig {
        model_id: "m.gguf".to_string(),
        alias: a.to_string(),
        tokenizer: None,
        cpu: true,
        seed: 1,
        gqa: 1,
        chat_format: ChatFormat::ChatML,
    };
    let whisper = |a: &str| WhisperModelConfig {
        model_id: "w".to_string(),
        alias: a.to_string(),
        cpu: true,
        seed: 1,
        quantized: true,
    };
    let config = Config {
        host: None,
        port: None,
        chat_configs: Some(vec![chat("a"), chat("b")]),
        whisper_configs: Some(vec![whisper("w")]),
    };
    let order = load_order(&config);
    let got: Vec<(String, ModelKind, usize)> =
        order.into_iter().map(|s| (s.alias, s.kind, s.index)).collect();
    assert_eq!(
        got,
        vec![
            ("a".to_string(), ModelKind::Chat, 0),
            ("b".to_string(), ModelKind::Chat, 1),
            ("w".to_string(), ModelKind::Whisper, 0)
        ]
    );
    let empty = Config { host: None, port: None, chat_configs: None, whisper_configs: None };
    assert!(load_order(&empty).is_empty());
}

#[test]
fn chat_failure_message() {
    let e = chat_failure(&ChatError::Template(TemplateError::MissingSystem));
    assert_eq!(e.status, 400);
    assert_eq!(e.message, "failed to handle chat model: No system message found");
}

#[test]
fn failed_load_names_the_alias_and_changes_nothing() {
    let config = Config {
        host: None,
        port: None,
        chat_configs: Some(vec![ChatModelConfig {
            model_id: "m.gguf".to_string(),
            alias: "chat".to_string(),
            tokenizer: None,
            cpu: true,
            seed: 1,
            gqa: 1,
            chat_format: ChatFormat::ChatML,
        }]),
        whisper_configs: None,
    };
    let order = load_order(&config);
    let mut models = Models::new();
    let r = models.register(&order[0], Err("missing weights".to_string()));
    assert_eq!(r, Err("chat: missing weights".to_string()));
    assert!(models.entries.is_empty());
    assert!(models.get_chat("chat".to_string()).is_none());
    assert_eq!(
        ModelInitError::FilterBankSize(12).message(),
        "unexpected mel filter length 12"
    );
}
