//! Decoder behaviour on concrete wire documents.
use casper_sdk_rs::codec::decode_sse_data;
use casper_sdk_rs::types::{EventPayload, EventPayloadCodec, ProtocolVersion, SseData};
use casper_sdk_rs::ClientError;

fn json_payload(d: &SseData) -> &str {
    match d {
        SseData::SidecarVersion(EventPayload::Json(s)) => s,
        SseData::BlockAdded(EventPayload::Json(s)) => s,
        SseData::TransactionAccepted(EventPayload::Json(s)) => s,
        SseData::TransactionProcessed(EventPayload::Json(s)) => s,
        SseData::TransactionExpired(EventPayload::Json(s)) => s,
        SseData::Fault(EventPayload::Json(s)) => s,
        SseData::FinalitySignature(EventPayload::Json(s)) => s,
        SseData::Step(EventPayload::Json(s)) => s,
        other => panic!("no JSON payload in {:?}", other),
    }
}

#[test]
fn payload_codec_discriminates() {
    let json = EventPayload::Json("{}".to_string());
    let binary = EventPayload::Binary(vec![1, 2, 3]);
    assert_eq!(json.codec(), EventPayloadCodec::Json);
    assert_eq!(binary.codec(), EventPayloadCodec::Binary);
}

#[test]
fn decode_bare_shutdown() {
    let d = decode_sse_data("\"Shutdown\"").unwrap();
    assert_eq!(d, SseData::Shutdown);
}

#[test]
fn decode_api_version() {
    let d = decode_sse_data("{\"ApiVersion\":\"2.0.0\"}").unwrap();
    assert_eq!(d, SseData::ApiVersion(ProtocolVersion::from_parts(2, 0, 0)));
}

#[test]
fn decode_api_version_with_whitespace() {
    let d = decode_sse_data("  {\n\t\"ApiVersion\" : \"10.20.30\" }\r\n").unwrap();
    assert_eq!(d, SseData::ApiVersion(ProtocolVersion::from_parts(10, 20, 30)));
}

#[test]
fn decode_api_version_largest_component() {
    let d = decode_sse_data("{\"ApiVersion\":\"4294967295.0.1\"}").unwrap();
    assert_eq!(
        d,
        SseData::ApiVersion(ProtocolVersion::from_parts(4294967295, 0, 1))
    );
}

#[test]
fn decode_api_version_component_overflow() {
    let r = decode_sse_data("{\"ApiVersion\":\"4294967296.0.0\"}");
    assert!(matches!(r, Err(ClientError::DeserializationError(_))));
}

#[test]
fn decode_api_version_two_components() {
    let r = decode_sse_data("{\"ApiVersion\":\"2.0\"}");
    assert!(matches!(r, Err(ClientError::DeserializationError(_))));
}

#[test]
fn decode_api_version_four_components() {
    let r = decode_sse_data("{\"ApiVersion\":\"2.0.0.1\"}");
    assert!(matches!(r, Err(ClientError::DeserializationError(_))));
}

#[test]
fn decode_api_version_unquoted() {
    let r = decode_sse_data("{\"ApiVersion\":2}");
    assert!(matches!(r, Err(ClientError::DeserializationError(_))));
}

#[test]
fn decode_block_added_keeps_raw_payload() {
    let d = decode_sse_data("{\"BlockAdded\":{\"height\":1}}").unwrap();
    assert!(matches!(d, SseData::BlockAdded(_)));
    assert_eq!(json_payload(&d), "{\"height\":1}");
}

#[test]
fn decode_payload_trimmed_of_outer_whitespace() {
    let d = decode_sse_data("{\"BlockAdded\": {\"height\": 13} }").unwrap();
    assert_eq!(json_payload(&d), "{\"height\": 13}");
}

#[test]
fn decode_every_known_payload_tag() {
    let tags = [
        "SidecarVersion",
        "BlockAdded",
        "TransactionAccepted",
        "TransactionProcessed",
        "TransactionExpired",
        "Fault",
        "FinalitySignature",
        "Step",
    ];
    for tag in tags {
        let doc = format!("{{\"{}\":{{\"height\":7}}}}", tag);
        let d = decode_sse_data(&doc).unwrap();
        assert_eq!(json_payload(&d), "{\"height\":7}", "tag {}", tag);
        assert_eq!(format!("{:?}", d.event_type()), tag);
    }
}

#[test]
fn decode_unknown_tag_lands_in_other() {
    let d = decode_sse_data("{\"SomethingNew\":[1,2]}").unwrap();
    assert_eq!(
        d,
        SseData::Other(
            "SomethingNew".to_string(),
            Some(EventPayload::Json("[1,2]".to_string()))
        )
    );
}

#[test]
fn decode_unknown_bare_string_lands_in_other() {
    let d = decode_sse_data("\"Mystery\"").unwrap();
    assert_eq!(d, SseData::Other("Mystery".to_string(), None));
}

#[test]
fn decode_bare_known_payload_tag_is_malformed() {
    let r = decode_sse_data("\"BlockAdded\"");
    assert!(matches!(r, Err(ClientError::DeserializationError(_))));
}

#[test]
fn decode_tagged_shutdown_is_malformed() {
    let r = decode_sse_data("{\"Shutdown\":null}");
    assert!(matches!(r, Err(ClientError::DeserializationError(_))));
}

#[test]
fn decode_malformed_payload_is_rejected() {
    // outer shape fine, payload itself not well-formed JSON
    let r = decode_sse_data("{\"BlockAdded\":{\"height\":}}");
    assert!(matches!(r, Err(ClientError::DeserializationError(_))));
}

#[test]
fn decode_nested_payload_with_brace_in_string() {
    let d = decode_sse_data("{\"Fault\":{\"era\":\"}\"}}").unwrap();
    assert_eq!(json_payload(&d), "{\"era\":\"}\"}");
}

#[test]
fn decode_missing_closing_brace() {
    let r = decode_sse_data("{\"BlockAdded\":{\"height\":1}");
    assert!(matches!(r, Err(ClientError::DeserializationError(_))));
}

#[test]
fn decode_empty_payload() {
    let r = decode_sse_data("{\"BlockAdded\":}");
    assert!(matches!(r, Err(ClientError::DeserializationError(_))));
}

#[test]
fn decode_empty_and_blank_documents() {
    assert!(matches!(
        decode_sse_data(""),
        Err(ClientError::DeserializationError(_))
    ));
    assert!(matches!(
        decode_sse_data("   \t\r\n"),
        Err(ClientError::DeserializationError(_))
    ));
}

#[test]
fn decode_non_object_document() {
    let r = decode_sse_data("[1,2]");
    assert!(matches!(r, Err(ClientError::DeserializationError(_))));
}

#[test]
fn decode_trailing_garbage_after_string() {
    let r = decode_sse_data("\"Shutdown\" x");
    assert!(matches!(r, Err(ClientError::DeserializationError(_))));
}

#[test]
fn decode_trailing_garbage_after_object() {
    let r = decode_sse_data("{\"BlockAdded\":{\"height\":1}} extra");
    assert!(matches!(r, Err(ClientError::DeserializationError(_))));
}

#[test]
fn decode_unterminated_tag_string() {
    let r = decode_sse_data("{\"BlockAdded");
    assert!(matches!(r, Err(ClientError::DeserializationError(_))));
}

#[test]
fn decode_missing_colon() {
    let r = decode_sse_data("{\"BlockAdded\" {\"height\":1}}");
    assert!(matches!(r, Err(ClientError::DeserializationError(_))));
}
