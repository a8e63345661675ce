use deepl_client::{
    interpret_exchange, Alternative, DeepLResponse, DeeplResult, DetectedLanguage, TranslateError,
    TranslatedText, TransportFailure,
};

#[test]
fn success_status_hands_body_to_decoding() {
    let r = interpret_exchange(200, "{\"jsonrpc\":\"2.0\"}".to_string());
    assert_eq!(r.unwrap(), "{\"jsonrpc\":\"2.0\"}");
}

#[test]
fn non_success_status_is_a_transport_failure_with_the_raw_response() {
    for status in [301u16, 403, 404, 429, 500] {
        let r = interpret_exchange(status, "too many requests".to_string());
        let failure = r.unwrap_err();
        assert_eq!(failure.status, status);
        assert_eq!(failure.body, "too many requests");
    }
}

#[test]
fn error_variants_carry_their_payloads() {
    let transport = TranslateError::Transport(TransportFailure {
        status: 502,
        body: "bad gateway".to_string(),
    });
    match transport {
        TranslateError::Transport(f) => {
            assert_eq!(f.status, 502);
            assert_eq!(f.body, "bad gateway");
        }
        TranslateError::Decode(_, _) => panic!("wrong variant"),
    }
    let decode = TranslateError::Decode("not json".to_string(), "expected value".to_string());
    match decode {
        TranslateError::Decode(raw, cause) => {
            assert_eq!(raw, "not json");
            assert_eq!(cause, "expected value");
        }
        TranslateError::Transport(_) => panic!("wrong variant"),
    }
}

/// Decodes the wire response shape and rebuilds the parsed reply; the
/// reply must carry as many text elements as the request sent (one).
#[test]
fn decoding_the_wire_response_reconstructs_one_text() {
    let body = "{\"jsonrpc\":\"2.0\",\"id\":8300009000,\"result\":{\"texts\":[{\"alternatives\":[{\"text\":\"Hallo Welt\"}],\"text\":\"hallo welt\"}],\"lang\":\"EN\",\"lang_is_confident\":false,\"detectedLanguages\":{\"EN\":0.9,\"DE\":0.1}}}";
    let v: serde_json::Value = serde_json::from_str(body).unwrap();
    let result = &v["result"];
    let mut texts: Vec<TranslatedText> = Vec::new();
    for t in result["texts"].as_array().unwrap() {
        let mut alternatives: Vec<Alternative> = Vec::new();
        for a in t["alternatives"].as_array().unwrap() {
            alternatives.push(Alternative { text: a["text"].as_str().unwrap().to_string() });
        }
        texts.push(TranslatedText {
            alternatives,
            text: t["text"].as_str().unwrap().to_string(),
        });
    }
    let mut detected_languages: Vec<DetectedLanguage> = Vec::new();
    for (language, score) in result["detectedLanguages"].as_object().unwrap() {
        detected_languages.push(DetectedLanguage {
            language: language.clone(),
            confidence: score.to_string(),
        });
    }
    let response = DeepLResponse {
        jsonrpc: v["jsonrpc"].as_str().unwrap().to_string(),
        id: v["id"].as_i64().unwrap(),
        result: DeeplResult {
            texts,
            lang: result["lang"].as_str().unwrap().to_string(),
            lang_is_confident: result["lang_is_confident"].as_bool().unwrap(),
            detected_languages,
        },
    };
    // the request always sends exactly one text element; the decoded
    // reply must hold the same count
    assert_eq!(response.result.texts.len(), 1);
    assert_eq!(response.result.texts[0].text, "hallo welt");
    assert_eq!(response.result.texts[0].alternatives.len(), 1);
    assert_eq!(response.result.texts[0].alternatives[0].text, "Hallo Welt");
    assert_eq!(response.id, 8300009000);
    assert_eq!(response.result.lang, "EN");
    assert!(!response.result.lang_is_confident);
    assert_eq!(response.result.detected_languages.len(), 2);
}
