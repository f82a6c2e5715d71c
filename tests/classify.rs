use zeekscript::{classify, finish, EngineFailure, FormatError};

#[test]
fn classify_query_without_detail() {
    let e = classify(EngineFailure::Query("bad pattern".to_string(), None));
    assert!(matches!(e, FormatError::Query(m) if m == "bad pattern"));
}

#[test]
fn classify_query_with_detail() {
    let e = classify(EngineFailure::Query(
        "Error parsing query file".to_string(),
        Some("Invalid node type foo".to_string()),
    ));
    assert!(matches!(e, FormatError::Query(m) if m == "Error parsing query file: Invalid node type foo"));
}

#[test]
fn classify_idempotence() {
    assert!(matches!(classify(EngineFailure::Idempotence), FormatError::Idempotency));
}

#[test]
fn classify_parsing() {
    assert!(matches!(classify(EngineFailure::Parsing), FormatError::Parse));
}

#[test]
fn classify_other_failures_as_unknown() {
    assert!(matches!(classify(EngineFailure::IdempotenceParsing), FormatError::Unknown));
    assert!(matches!(classify(EngineFailure::Internal), FormatError::Unknown));
    assert!(matches!(classify(EngineFailure::PatternDoesNotMatch), FormatError::Unknown));
    assert!(matches!(classify(EngineFailure::Io), FormatError::Unknown));
}

#[test]
fn finish_decodes_valid_output() {
    let r = finish(Ok(vec![0x61, 0xc3, 0xa9, 0x0a]));
    assert!(matches!(r, Ok(s) if s == "a\u{e9}\n"));
}

#[test]
fn finish_decodes_empty_output() {
    assert!(matches!(finish(Ok(Vec::new())), Ok(s) if s.is_empty()));
}

#[test]
fn finish_reports_invalid_utf8() {
    match finish(Ok(vec![0x61, 0xff, 0x0a])) {
        Err(FormatError::UTF8(e)) => assert_eq!(e.as_bytes(), &[0x61, 0xff, 0x0a]),
        other => panic!("expected a UTF-8 error, got {other:?}"),
    }
}

#[test]
fn finish_reports_truncated_sequence() {
    assert!(matches!(finish(Ok(vec![0xe2, 0x82])), Err(FormatError::UTF8(_))));
}

#[test]
fn finish_classifies_engine_failure() {
    assert!(matches!(finish(Err(EngineFailure::Parsing)), Err(FormatError::Parse)));
    assert!(matches!(finish(Err(EngineFailure::Idempotence)), Err(FormatError::Idempotency)));
}
