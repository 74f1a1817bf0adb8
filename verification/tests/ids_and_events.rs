use kleos::types::events::{
    ActionType, DataProcessedEvent, EventPayload, ProcessingResult, Severity, StreamEvent,
    SystemEventData,
};
use kleos::types::ids::{PartitionKey, RequestId, StreamRecordId};
use kleos::types::validated::{String100, String1000};

#[test]
fn request_id_text() {
    let id = RequestId::new("req-1".to_string());
    assert_eq!(id.as_str(), "req-1");
    assert_eq!(id.to_string(), "req-1");
    assert_eq!(id, RequestId::new("req-1".to_string()));
}

#[test]
fn generated_request_id_is_uuid_based() {
    let id = RequestId::generate();
    let parsed = uuid::Uuid::parse_str(id.as_str()).unwrap();
    assert_eq!(parsed.get_version_num(), 4);
    assert_eq!(parsed.hyphenated().to_string(), id.as_str());
    assert_ne!(RequestId::generate(), id);
}

#[test]
fn generated_request_id_is_a_partition_key() {
    for _ in 0..10 {
        let id = RequestId::generate();
        assert_eq!(id.as_str().len(), 36);
        assert!(PartitionKey::create(id.to_string()).is_some());
    }
}

#[test]
fn stream_record_id_text() {
    let id = StreamRecordId::new("4959".to_string());
    assert_eq!(id.as_str(), "4959");
    assert_eq!(id.to_string(), "4959");
}

#[test]
fn partition_key_bounds() {
    assert!(PartitionKey::create(String::new()).is_none());
    assert_eq!(PartitionKey::create("k".to_string()).unwrap().as_str(), "k");
    assert!(PartitionKey::create("k".repeat(256)).is_some());
    assert!(PartitionKey::create("k".repeat(257)).is_none());
    // 128 characters of two bytes each: 256 bytes.
    assert!(PartitionKey::create("ß".repeat(128)).is_some());
    assert!(PartitionKey::create("ß".repeat(129)).is_none());
    assert_eq!(PartitionKey::create("abc".to_string()).unwrap().to_string(), "abc");
}

#[test]
fn processing_result_is_success_or_failed() {
    let ok = ProcessingResult::Success { records_processed: 10, duration_ms: 5 };
    assert!(ok.is_success());
    assert!(!ok.is_failed());
    let failed = ProcessingResult::Failed {
        error_message: String1000::create("boom".to_string()).unwrap(),
        retry_count: 2,
    };
    assert!(failed.is_failed());
    assert!(!failed.is_success());
}

#[test]
fn severity_order() {
    assert!(Severity::Critical > Severity::Error);
    assert!(Severity::Error > Severity::Warning);
    assert!(Severity::Warning > Severity::Info);
    assert!(Severity::Info < Severity::Critical);
    assert_eq!(Severity::Warning.partial_cmp(&Severity::Warning), Some(std::cmp::Ordering::Equal));
    assert_eq!(Severity::Error.rank(), 2);
    let mut levels = vec![Severity::Critical, Severity::Info, Severity::Error, Severity::Warning];
    levels.sort();
    assert_eq!(levels, vec![Severity::Info, Severity::Warning, Severity::Error, Severity::Critical]);
}

#[test]
fn stream_event_keeps_request_and_payload() {
    let payload = EventPayload::SystemEvent(SystemEventData {
        source: String100::create("scheduler".to_string()).unwrap(),
        severity: Severity::Warning,
        message: String1000::create("slow".to_string()).unwrap(),
    });
    let event = StreamEvent::new(RequestId::new("r".to_string()), payload);
    assert_eq!(event.request_id.as_str(), "r");
    match &event.payload {
        EventPayload::SystemEvent(data) => {
            assert_eq!(data.source.as_str(), "scheduler");
            assert_eq!(data.severity, Severity::Warning);
        }
        _ => panic!("wrong payload"),
    }
    let processed = EventPayload::DataProcessed(DataProcessedEvent {
        original_request_id: RequestId::new("r".to_string()),
        result: ProcessingResult::Success { records_processed: 1, duration_ms: 1 },
    });
    assert!(matches!(processed, EventPayload::DataProcessed(_)));
    assert_eq!(ActionType::View, ActionType::View);
}
