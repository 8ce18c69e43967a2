use slim_translator::client::{format_outcome, ProtocolError, TranslationRequest, TranslationResult};
use slim_translator::config::{menu_command, Config, MenuCommand};
use slim_translator::encode::{count_occurrences, decimal};
use slim_translator::orchestrator::{
    choose_backend, panel_position, plan_activation, prepare_call, Activation, Backend,
};
use slim_translator::translate::{
    create_post_data, derive_timestamp, request_base, timestamp_from_clock, get_i_count, get_random_number, get_time_stamp,
    keyless_call, keyless_headers, keyless_outcome, uses_spaced_method, DeepLResponse,
    DeeplResult, TranslatedText,
};
use slim_translator::translate_with_api_key::{keyed_call, keyed_outcome, Alternative, DeeplXResult};

fn config(api_key: Option<&str>) -> Config {
    Config {
        from: "auto".to_string(),
        to: "zh".to_string(),
        api_key: api_key.map(|k| k.to_string()),
        local: "en-US".to_string(),
    }
}

#[test]
fn timestamp_with_three_i() {
    assert_eq!(get_i_count("this is it"), 3);
    let ts = 1_700_000_000_123u64;
    assert_eq!(derive_timestamp(ts, 3), ts - ts % 4 + 4);
    assert_eq!(derive_timestamp(1_700_000_000_123, 3), 1_700_000_000_124);
    assert_eq!(derive_timestamp(1_700_000_000_125, 3), 1_700_000_000_128);
    assert_eq!(derive_timestamp(1_700_000_000_120, 3), 1_700_000_000_124);
}

#[test]
fn timestamp_without_i_is_raw() {
    assert_eq!(get_i_count("hello"), 0);
    assert_eq!(derive_timestamp(1_700_000_000_123, 0), 1_700_000_000_123);
}

#[test]
fn i_count_ignores_capitals_and_counts_unicode_text() {
    assert_eq!(get_i_count("Iii\u{00ef}i"), 3);
    assert_eq!(count_occurrences("", 'i'), 0);
}

#[test]
fn clock_timestamp_is_transformed() {
    let t = get_time_stamp(4).expect("clock after the epoch");
    assert_eq!(t % 5, 0);
    assert!(t > 1_600_000_000_000);
}

#[test]
fn random_request_base_is_shaped() {
    for _ in 0..50 {
        let r = get_random_number();
        assert_eq!(r % 1000, 0);
        assert!(r >= 8_300_000_000 && r < (8_300_000 + 99_999) * 1000);
    }
}

#[test]
fn decimal_writes_digits() {
    assert_eq!(decimal(0), "0");
    assert_eq!(decimal(7), "7");
    assert_eq!(decimal(8_300_042_001), "8300042001");
    assert_eq!(decimal(u64::MAX), "18446744073709551615");
}

#[test]
fn spacing_rule_examples() {
    assert!(!uses_spaced_method(29));
    assert!(uses_spaced_method(24));
    assert!(uses_spaced_method(10));
    assert!(!uses_spaced_method(1));
}

#[test]
fn body_for_id_29_is_tight() {
    let body = create_post_data(29, "auto", "zh", "hello", 1000);
    assert!(body.contains("\"method\":\"LMT_handle_texts\""));
    assert!(!body.contains("\"method\" : \"LMT_handle_texts\""));
}

#[test]
fn body_for_id_24_is_spaced() {
    let body = create_post_data(24, "auto", "zh", "hello", 1000);
    assert!(body.contains("\"method\" : \"LMT_handle_texts\""));
    assert!(!body.contains("\"method\":\"LMT_handle_texts\""));
}

#[test]
fn body_exact_bytes() {
    let body = create_post_data(8_300_000_001, "auto", "en", "say \"hi\"", 1234);
    assert_eq!(
        body,
        "{\"jsonrpc\":\"2.0\",\"method\":\"LMT_handle_texts\",\"id\":8300000001,\"params\":{\"texts\":[{\"text\":\"say \\\"hi\\\"\",\"requestAlternatives\":3}],\"splitting\":\"newlines\",\"lang\":{\"source_lang_user_selected\":\"auto\",\"target_lang\":\"en\"},\"timestamp\":1234,\"commonJobParams\":{\"was_spoken\":false,\"transcribe_as\":\"\"}}}"
    );
    let parsed: serde_json::Value = serde_json::from_str(&body).unwrap();
    assert_eq!(parsed["params"]["texts"][0]["text"], "say \"hi\"");
}

#[test]
fn keyless_call_is_well_formed() {
    let call = keyless_call("auto", "zh", "this is it").expect("clock after the epoch");
    assert_eq!(call.url, "https://www2.deepl.com/jsonrpc");
    assert_eq!(call.headers, keyless_headers());
    assert_eq!(call.headers.len(), 10);
    assert_eq!(call.headers[6], ("User-Agent", "DeepL-iOS/2.9.1 iOS 16.3.0 (iPhone13,2)"));
    let parsed: serde_json::Value = serde_json::from_str(&call.body.replace("\" : \"", "\":\"")).unwrap();
    let id = parsed["id"].as_u64().unwrap();
    assert_eq!(id % 1000, 1);
    assert_eq!(parsed["params"]["timestamp"].as_u64().unwrap() % 4, 0);
    let spaced = call.body.contains("\"method\" : \"");
    assert_eq!(spaced, (id + 5) % 29 == 0 || (id + 3) % 13 == 0);
}

fn canned_keyed_reply(body: &str) -> Result<DeeplXResult, String> {
    let v: serde_json::Value = serde_json::from_str(body).map_err(|e| e.to_string())?;
    let alternatives = v["alternatives"]
        .as_array()
        .ok_or("no alternatives")?
        .iter()
        .map(|a| Alternative { text: a["text"].as_str().unwrap_or_default().to_string() })
        .collect();
    Ok(DeeplXResult {
        code: v["code"].as_i64().ok_or("no code")?,
        id: v["id"].as_i64().ok_or("no id")?,
        data: v["data"].as_str().ok_or("no data")?.to_string(),
        alternatives,
    })
}

#[test]
fn keyed_round_trip() {
    let call = keyed_call("auto", "zh", "hello", "SECRET-REDACTED");
    assert_eq!(call.url, "https://api.deeplx.org/SECRET-REDACTED/translate");
    assert_eq!(call.body, "{\"source_lang\":\"auto\",\"target_lang\":\"zh\",\"text\":\"hello\"}");
    assert!(call.headers.is_empty());
    let reply = "{\"code\":200,\"id\":1,\"data\":\"你好\",\"alternatives\":[{\"text\":\"您好\"}]}";
    let outcome = keyed_outcome(200, reply.to_string(), canned_keyed_reply(reply)).unwrap();
    assert_eq!(outcome.primary_text, "你好");
    assert_eq!(outcome.alternatives, vec!["您好".to_string()]);
}

#[test]
fn keyed_non_200_is_unexpected_status() {
    let body = "Too Many Requests".to_string();
    match keyed_outcome(429, body.clone(), Err("not decoded".to_string())) {
        Err(ProtocolError::UnexpectedStatus(code, b)) => {
            assert_eq!(code, 429);
            assert_eq!(b, body);
        }
        _ => panic!("expected UnexpectedStatus"),
    }
}

#[test]
fn keyed_bad_body_is_malformed() {
    let reply = "{\"oops\":1}";
    match keyed_outcome(200, reply.to_string(), canned_keyed_reply(reply)) {
        Err(ProtocolError::MalformedResponse(_)) => {}
        _ => panic!("expected MalformedResponse"),
    }
}

fn keyless_reply(texts: Vec<TranslatedText>) -> DeepLResponse {
    DeepLResponse {
        jsonrpc: "2.0".to_string(),
        id: 8_300_000_001,
        result: DeeplResult { texts, lang: "EN".to_string(), lang_is_confident: true },
    }
}

#[test]
fn keyless_takes_first_text() {
    let texts = vec![
        TranslatedText {
            alternatives: vec![
                Alternative { text: "b".to_string() },
                Alternative { text: "c".to_string() },
            ],
            text: "a".to_string(),
        },
        TranslatedText { alternatives: vec![], text: "z".to_string() },
    ];
    let r = keyless_outcome(200, String::new(), Ok(keyless_reply(texts))).unwrap();
    assert_eq!(r.primary_text, "a");
    assert_eq!(r.alternatives, vec!["b".to_string(), "c".to_string()]);
}

#[test]
fn keyless_without_texts_is_malformed() {
    match keyless_outcome(200, String::new(), Ok(keyless_reply(vec![]))) {
        Err(ProtocolError::MalformedResponse(_)) => {}
        _ => panic!("expected MalformedResponse"),
    }
}

#[test]
fn keyless_non_200_is_unexpected_status() {
    match keyless_outcome(429, "slow down".to_string(), Ok(keyless_reply(vec![]))) {
        Err(ProtocolError::UnexpectedStatus(429, b)) => assert_eq!(b, "slow down"),
        _ => panic!("expected UnexpectedStatus"),
    }
}

#[test]
fn network_error_message_is_verbatim() {
    let e = ProtocolError::Network("connection refused".to_string());
    assert_eq!(e.message(), "connection refused");
    let out = format_outcome(&Err(e), "Alternatives");
    assert_eq!(out, "translation failed: connection refused");
}

#[test]
fn status_error_message() {
    let e = ProtocolError::UnexpectedStatus(429, "busy".to_string());
    assert_eq!(
        format_outcome(&Err(e), "x"),
        "translation failed: Failed to get response from DeepL\nstatus code: 429\nbody: busy"
    );
}

#[test]
fn success_message_with_alternatives() {
    let t = TranslationResult {
        primary_text: "hello".to_string(),
        alternatives: vec!["hi".to_string(), "hey".to_string()],
    };
    assert_eq!(format_outcome(&Ok(t), "Alternatives"), "hello\n\n=====Alternatives=====\nhi\nhey\n");
}

#[test]
fn success_message_without_alternatives() {
    let t = TranslationResult { primary_text: "hello".to_string(), alternatives: vec![] };
    assert_eq!(format_outcome(&Ok(t), "Alternatives"), "hello");
}

#[test]
fn empty_selection_is_ignored() {
    assert!(matches!(plan_activation(&config(None), String::new()), Activation::Ignore));
}

#[test]
fn selection_becomes_request() {
    match plan_activation(&config(None), "hello".to_string()) {
        Activation::Translate(TranslationRequest { source_language, target_language, text }) => {
            assert_eq!(source_language, "auto");
            assert_eq!(target_language, "zh");
            assert_eq!(text, "hello");
        }
        Activation::Ignore => panic!("expected a request"),
    }
}

#[test]
fn backend_follows_key() {
    assert!(matches!(choose_backend(&config(None)), Backend::Keyless));
    match choose_backend(&config(Some("k1"))) {
        Backend::Keyed(k) => assert_eq!(k, "k1"),
        Backend::Keyless => panic!("expected keyed"),
    }
}

#[test]
fn prepare_call_for_keyed_backend() {
    let req = TranslationRequest {
        source_language: "en".to_string(),
        target_language: "zh".to_string(),
        text: "hi".to_string(),
    };
    let call = prepare_call(&Backend::Keyed("k".to_string()), &req).unwrap();
    assert_eq!(call.url, "https://api.deeplx.org/k/translate");
    assert_eq!(call.body, "{\"source_lang\":\"en\",\"target_lang\":\"zh\",\"text\":\"hi\"}");
    let keyless = prepare_call(&Backend::Keyless, &req).unwrap();
    assert_eq!(keyless.url, "https://www2.deepl.com/jsonrpc");
}

#[test]
fn panel_is_offset_from_pointer() {
    assert_eq!(panel_position(Some((100, 100))), (40, 120));
    assert_eq!(panel_position(None), (0, 0));
}

#[test]
fn defaults_follow_locale() {
    let zh = Config::with_defaults("zh-CN".to_string());
    assert_eq!((zh.from.as_str(), zh.to.as_str(), zh.local.as_str()), ("auto", "zh", "zh-CN"));
    assert!(zh.api_key.is_none());
    assert_eq!(Config::with_defaults("en-US".to_string()).to, "en");
    assert_eq!(Config::with_defaults("z".to_string()).to, "en");
}

#[test]
fn menu_commands_update_languages() {
    let mut c = config(Some("k"));
    assert_eq!(menu_command("from.english"), MenuCommand::SourceEnglish);
    c.apply_menu_command(menu_command("from.english"));
    c.apply_menu_command(menu_command("to.english"));
    assert_eq!((c.from.as_str(), c.to.as_str()), ("en", "en"));
    c.apply_menu_command(menu_command("from.chinese"));
    c.apply_menu_command(menu_command("to.chinese"));
    assert_eq!((c.from.as_str(), c.to.as_str()), ("zh", "zh"));
    c.apply_menu_command(menu_command("from.auto"));
    assert_eq!(c.from, "auto");
    assert_eq!(menu_command("about.github"), MenuCommand::OpenHomepage);
    assert_eq!(menu_command("exit"), MenuCommand::Exit);
    assert_eq!(menu_command("something"), MenuCommand::Unknown);
    c.apply_menu_command(MenuCommand::Exit);
    assert_eq!((c.from.as_str(), c.to.as_str(), c.api_key.as_deref()), ("auto", "zh", Some("k")));
}

#[test]
fn timestamp_from_clock_cases() {
    assert_eq!(timestamp_from_clock(None, 3), None);
    assert_eq!(timestamp_from_clock(Some(1_700_000_000_123), 3), Some(1_700_000_000_124));
    assert_eq!(timestamp_from_clock(Some(1_700_000_000_123), 0), Some(1_700_000_000_123));
    assert_eq!(timestamp_from_clock(Some(u64::MAX as u128), 0), Some(u64::MAX));
    assert_eq!(timestamp_from_clock(Some(u64::MAX as u128 + 1), 0), None);
    assert_eq!(timestamp_from_clock(Some(u64::MAX as u128), 3), None);
    assert_eq!(timestamp_from_clock(Some(u64::MAX as u128 - 4), 3), Some(u64::MAX - 3));
    assert_eq!(timestamp_from_clock(Some(5), u64::MAX), None);
}

#[test]
fn request_base_scales_draw() {
    assert_eq!(request_base(0), 8_300_000_000);
    assert_eq!(request_base(42), 8_300_042_000);
    assert_eq!(request_base(99_998), 8_399_998_000);
}

#[test]
fn control_characters_are_escaped() {
    let body = create_post_data(1, "a\\b", "\u{1}\u{1f}", "x\n\t\r\u{8}\u{c}y\u{7f}\u{e9}", 0);
    assert!(body.contains("\"text\":\"x\\n\\t\\r\\b\\fy\u{7f}\u{e9}\""));
    assert!(body.contains("\"source_lang_user_selected\":\"a\\\\b\""));
    assert!(body.contains("\"target_lang\":\"\\u0001\\u001f\""));
}
