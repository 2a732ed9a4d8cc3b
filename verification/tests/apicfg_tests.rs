use cloak_core::{
    classify_sse_line, decode_audio_base64, map_api_error_message, scrub_request_error,
    stored_credentials, take_complete_lines, usable_audio_headers, ApiConfigError, SseLine,
    UserAudioHeader,
};

fn rule(includes: &str, error: &str) -> ApiConfigError {
    ApiConfigError {
        includes: includes.to_string(),
        error: error.to_string(),
    }
}

#[test]
fn first_source_containing_a_pattern_selects_that_rule() {
    let rules = vec![rule("quota", "Quota exhausted."), rule("timeout", "Provider timed out.")];
    let sources = vec!["request timeout after 30s".to_string(), "quota exceeded".to_string()];
    // The first source matches the second rule; sources are tried in order.
    assert_eq!(map_api_error_message(&rules, &sources), "Provider timed out.");
}

#[test]
fn rules_are_tried_in_order_per_source() {
    let rules = vec![rule("error", "First."), rule("server error", "Second.")];
    let sources = vec!["server error happened".to_string()];
    assert_eq!(map_api_error_message(&rules, &sources), "First.");
}

#[test]
fn blank_pattern_rule_is_the_default() {
    let rules = vec![rule("quota", "Quota exhausted."), rule("  ", "Default message.")];
    let sources = vec!["nothing relevant".to_string()];
    assert_eq!(map_api_error_message(&rules, &sources), "Default message.");
}

#[test]
fn first_rule_stands_in_without_default() {
    let rules = vec![rule("quota", "Quota exhausted."), rule("timeout", "Provider timed out.")];
    let sources = vec!["nothing relevant".to_string()];
    assert_eq!(map_api_error_message(&rules, &sources), "Quota exhausted.");
}

#[test]
fn without_rules_a_fixed_sentence_is_shown() {
    let rules: Vec<ApiConfigError> = vec![];
    let sources = vec!["anything".to_string()];
    assert_eq!(
        map_api_error_message(&rules, &sources),
        "Something went wrong. Please try switching to a different model or contact support."
    );
}

#[test]
fn empty_pattern_never_matches_inside_a_source() {
    // An empty `includes` is not a content match; it only serves as default.
    let rules = vec![rule("", "Default only.")];
    let sources = vec!["anything".to_string()];
    assert_eq!(map_api_error_message(&rules, &sources), "Default only.");
}

#[test]
fn base64_decoding_decodes_payload() {
    // Would fail if the decoder handed its input back unchanged.
    assert_eq!(decode_audio_base64("AAAA").unwrap(), vec![0u8, 0, 0]);
    assert_eq!(decode_audio_base64("aGVsbG8=").unwrap(), b"hello".to_vec());
}

#[test]
fn base64_decoding_strips_data_url_header_and_whitespace() {
    assert_eq!(
        decode_audio_base64("  data:audio/wav;base64,aGVsbG8=  ").unwrap(),
        b"hello".to_vec()
    );
}

#[test]
fn base64_decoding_rejects_invalid_payload() {
    assert!(decode_audio_base64("not base64!").is_err());
}

#[test]
fn request_errors_lose_their_url_detail() {
    assert_eq!(
        scrub_request_error("Failed to fetch API config: ", "connection refused for url (https://host/x)"),
        "Failed to fetch API config: connection refused"
    );
    assert_eq!(
        scrub_request_error("Failed to fetch API config: ", "connection refused"),
        "Failed to fetch API config: connection refused"
    );
}

#[test]
fn complete_lines_are_peeled_off() {
    let (lines, rest) = take_complete_lines("data: a\ndata: b\ndata: c");
    assert_eq!(lines, vec!["data: a", "data: b"]);
    assert_eq!(rest, "data: c");

    let (lines, rest) = take_complete_lines("data: a\n");
    assert_eq!(lines, vec!["data: a"]);
    assert_eq!(rest, "");

    let (lines, rest) = take_complete_lines("partial");
    assert!(lines.is_empty());
    assert_eq!(rest, "partial");
}

#[test]
fn blank_header_keys_are_dropped_and_kept_keys_trimmed() {
    let headers = vec![
        UserAudioHeader {
            key: " x-token ".to_string(),
            value: "abc".to_string(),
        },
        UserAudioHeader {
            key: "   ".to_string(),
            value: "ignored".to_string(),
        },
        UserAudioHeader {
            key: "x-org".to_string(),
            value: "team".to_string(),
        },
    ];
    let sent = usable_audio_headers(&headers);
    assert_eq!(sent.len(), 2);
    assert_eq!(sent[0].key, "x-token");
    assert_eq!(sent[0].value, "abc");
    assert_eq!(sent[1].key, "x-org");
    assert_eq!(sent[1].value, "team");
}

#[test]
fn credentials_require_both_fields() {
    assert_eq!(
        stored_credentials(None, Some("i".to_string())).unwrap_err(),
        "License key not found"
    );
    assert_eq!(
        stored_credentials(Some("l".to_string()), None).unwrap_err(),
        "Instance ID not found"
    );
    assert_eq!(
        stored_credentials(Some("l".to_string()), Some("i".to_string())).unwrap(),
        ("l".to_string(), "i".to_string())
    );
}

#[test]
fn stream_lines_are_classified() {
    assert!(matches!(classify_sse_line("data: [DONE]"), SseLine::Done));
    assert!(matches!(classify_sse_line("  data: [DONE]  "), SseLine::Done));
    assert!(matches!(classify_sse_line("event: ping"), SseLine::Ignored));
    assert!(matches!(classify_sse_line("data: "), SseLine::Ignored));
    match classify_sse_line("data: {\"k\":1}") {
        SseLine::Payload(payload) => assert_eq!(payload, "{\"k\":1}"),
        _ => panic!("payload line must be handed out"),
    }
}
