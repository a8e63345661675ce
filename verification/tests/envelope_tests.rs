use deepl_client::{
    dump_post_data, padded_variant, prepare_request, serialized_request, CommonJobParams, Lang,
    Params, PostData, Text,
};

fn envelope(id: i64, timestamp: u128, text: &str, src: &str, tgt: &str) -> PostData {
    PostData {
        jsonrpc: "2.0".to_string(),
        method: "LMT_handle_texts".to_string(),
        id,
        params: Params {
            texts: vec![Text { text: text.to_string(), request_alternatives: 0 }],
            splitting: "newlines".to_string(),
            lang: Lang {
                source_lang_user_selected: src.to_string(),
                target_lang: tgt.to_string(),
            },
            timestamp,
            common_job_params: CommonJobParams {
                was_spoken: false,
                transcribe_as: "".to_string(),
            },
        },
    }
}

#[test]
fn default_envelope_dumps_to_canonical_json() {
    let dumped = dump_post_data(PostData::default());
    assert_eq!(
        dumped,
        "{\"jsonrpc\":\"2.0\",\"method\":\"LMT_handle_texts\",\"id\":0,\"params\":{\"texts\":[{\"text\":\"\",\"request_alternatives\":0}],\"splitting\":\"newlines\",\"lang\":{\"source_lang_user_selected\":\"auto\",\"target_lang\":\"ZH\"},\"timestamp\":0,\"commonJobParams\":{\"was_spoken\":false,\"transcribe_as\":\"\"}}}"
    );
}

#[test]
fn dump_matches_reference_encoder_for_escapes() {
    let tricky = "a\"b\\c\nd\u{1}e\ttab\rret\u{8}\u{c}";
    let dumped = dump_post_data(envelope(7, 9, tricky, "auto", "DE"));
    // the segment holding the text must be escaped exactly as the
    // reference JSON encoder escapes the same string
    let reference = serde_json::to_string(&serde_json::Value::String(tricky.to_string())).unwrap();
    let expected_segment = format!("{{\"text\":{},\"request_alternatives\":0}}", reference);
    assert!(dumped.contains(&expected_segment), "dump was: {}", dumped);
}

#[test]
fn dump_keeps_unicode_unescaped() {
    let dumped = dump_post_data(envelope(1, 2, "héllo→", "auto", "JA"));
    assert!(dumped.contains("\"text\":\"héllo→\""));
}

#[test]
fn dump_renders_negative_ids() {
    let dumped = dump_post_data(envelope(-42, 0, "x", "EN", "DE"));
    assert!(dumped.contains("\"method\":\"LMT_handle_texts\",\"id\":-42,"));
}

#[test]
fn variant_choice_follows_the_congruences() {
    // (24 + 5) % 29 == 0
    assert!(padded_variant(24));
    // (10 + 3) % 13 == 0
    assert!(padded_variant(10));
    assert!(!padded_variant(0));
    // (8300009000 + 3) % 13 == 0, an id the synthesizer could produce
    assert!(padded_variant(8300009000));
    // neither congruence holds
    assert!(!padded_variant(8345001));
    // the choice is a pure function of the id
    for id in [0i64, 10, 24, 8300009000, 8345001] {
        assert_eq!(padded_variant(id), padded_variant(id));
    }
}

#[test]
fn padded_id_yields_space_padded_method_key() {
    let wire = serialized_request(&envelope(8300009000, 0, "hi", "auto", "DE"));
    assert!(wire.contains("\"method\" : \"LMT_handle_texts\""), "wire was: {}", wire);
    assert!(!wire.contains("\"method\": \""));
}

#[test]
fn unpadded_id_yields_single_space_method_key() {
    let wire = serialized_request(&envelope(8345001, 0, "hi", "auto", "DE"));
    assert!(wire.contains("\"method\": \"LMT_handle_texts\""), "wire was: {}", wire);
    assert!(!wire.contains("\"method\" : \""));
}

#[test]
fn obfuscation_touches_only_the_method_delimiter() {
    let canonical = dump_post_data(envelope(8345001, 5, "hello", "auto", "DE"));
    let wire = serialized_request(&envelope(8345001, 5, "hello", "auto", "DE"));
    assert_eq!(wire, canonical.replace("\"method\":\"", "\"method\": \""));
}

#[test]
fn prepared_payload_has_fixed_literals_and_one_text() {
    let prepared = prepare_request("hello\nworld", "auto", "DE");
    let payload = &prepared.payload;
    assert!(payload.contains("\"splitting\":\"newlines\""));
    assert!(payload.contains("\"text\":\"hello\\nworld\""));
    assert_eq!(payload.matches("\"text\":").count(), 1);
    assert!(payload.contains(&format!("\"id\":{},", prepared.id)));
    assert!(payload.contains(&format!("\"timestamp\":{},", prepared.timestamp)));
    assert!(payload.contains("\"source_lang_user_selected\":\"auto\""));
    assert!(payload.contains("\"target_lang\":\"DE\""));
    assert!(payload.contains("\"commonJobParams\":{\"was_spoken\":false,\"transcribe_as\":\"\"}"));
    // one line feed in the text: the count sits one above the provisional
    // timestamp, so the aligned timestamp is a multiple of count + 1
    assert!(prepared.count >= 1);
    assert_eq!(prepared.timestamp % (prepared.count + 1), 0);
    // decodable by the reference decoder, with exactly one text element
    let v: serde_json::Value = serde_json::from_str(payload).unwrap();
    assert_eq!(v["params"]["texts"].as_array().unwrap().len(), 1);
    assert_eq!(v["params"]["texts"][0]["text"], "hello\nworld");
}
