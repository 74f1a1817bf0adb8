use kleos::pipeline::ingestion::IngestError;
use kleos::pipeline::processing::{ProcessingError, ProcessingResult};
use kleos::pipeline::stream::StreamError;

#[test]
fn test_ingest_error_display() {
    let parse_err = IngestError::ParseError("invalid json".to_string());
    assert_eq!(parse_err.to_string(), "Failed to parse payload: invalid json");

    let sys_err = IngestError::SystemError("disk full".to_string());
    assert_eq!(sys_err.to_string(), "Ingestion failed: disk full");
}

#[test]
fn test_processing_error_display() {
    let error = ProcessingError::ExecutionError("something went wrong".to_string());
    assert_eq!(error.to_string(), "Processing failed: something went wrong");

    let transient = ProcessingError::TransientError("timeout".to_string());
    assert_eq!(transient.to_string(), "Transient error, retriable: timeout");
}

#[test]
fn test_stream_error_display() {
    let publish_err = StreamError::PublishError("kafka down".to_string());
    assert_eq!(publish_err.to_string(), "Failed to publish to stream: kafka down");

    let consume_err = StreamError::ConsumeError("empty".to_string());
    assert_eq!(consume_err.to_string(), "Failed to consume from stream: empty");

    let conn_err = StreamError::ConnectionError("timeout".to_string());
    assert_eq!(conn_err.to_string(), "Connection error: timeout");
}

#[test]
fn test_processing_result_serialization() {
    let success = ProcessingResult::Success;
    let serialized = success.to_json();
    assert_eq!(serialized, "\"Success\"");

    let failure = ProcessingResult::Failure("bad data".to_string());
    let serialized = failure.to_json();
    assert_eq!(serialized, "{\"Failure\":\"bad data\"}");

    let skipped = ProcessingResult::Skipped("duplicate".to_string());
    let serialized = skipped.to_json();
    assert_eq!(serialized, "{\"Skipped\":\"duplicate\"}");
}

#[test]
fn processing_result_json_escapes_and_parses() {
    let tricky = ProcessingResult::Failure("say \"hi\"\n\\".to_string());
    let text = tricky.to_json();
    assert_eq!(text, "{\"Failure\":\"say \\\"hi\\\"\\n\\\\\"}");
    let value: serde_json::Value = serde_json::from_str(&text).unwrap();
    assert_eq!(value["Failure"], "say \"hi\"\n\\");
    assert_eq!(kleos::json::unit_variant("X"), "\"X\"");
    assert_eq!(kleos::json::newtype_variant("K", "1"), "{\"K\":1}");
    assert_eq!(kleos::json::json_string("a\tb"), "\"a\\tb\"");
    let controls = "\u{1}\u{8}\u{c}\r\u{1f} é/";
    assert_eq!(kleos::json::json_string(controls), serde_json::to_string(controls).unwrap());
    assert_eq!(kleos::json::json_string(controls), "\"\\u0001\\b\\f\\r\\u001f é/\"");
}
