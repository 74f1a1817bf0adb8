use kleos::api_producer::{
    create_domain_event, parse_action_type, producer_reply, ApiReply, ApiRequest,
    EventRequestError, ProducerStep,
};
use kleos::ingest::config::{Config, ConfigError};
use kleos::ingest::handler::{ingest_next, ingest_reply, GatewayReply, IngestAction, IngestEvent, IngestStep};
use kleos::ingest::ingestor::UserActionIngestor;
use kleos::ingest::{Amount, DomainError, PageUrl, ProductId, UserAction, UserId};
use kleos::pipeline::events::Payload;
use kleos::pipeline::ingestion::IngestError;
use kleos::pipeline::processing::{ProcessingError, ProcessingResult};
use kleos::pipeline::stream::StreamError;
use kleos::process::config::Config as ProcessConfig;
use kleos::process::consumer::KinesisBatchConsumer;
use kleos::process::handler::{advance, BatchAction, BatchEvent, BatchTally, LogLine};
use kleos::clock::{timestamp_at_offset, utc_now, UtcTimestamp};
use kleos::process::processor::UserActionProcessor;
use kleos::process::{ProcessableRecord, ProcessingError as RecordError};
use kleos::stream_consumer::{batch_response, log_for_action, log_for_severity, LogLevel, RecordOutcome};
use kleos::types::events::{ActionType, EventPayload, Severity};
use kleos::types::ids::RequestId;
use kleos::types::validated::ValidationError;

fn page(url: &str) -> PageUrl {
    PageUrl::create(url.to_string()).unwrap()
}

#[test]
fn page_url_rules() {
    assert_eq!(page("/home").value(), "/home");
    assert_eq!(page("https://example.com").value(), "https://example.com");
    assert_eq!(page("httpx").to_string(), "httpx");
    match PageUrl::create(String::new()) {
        Err(DomainError::InvalidPageUrl(reason)) => assert_eq!(reason, "URL cannot be empty"),
        other => panic!("unexpected {:?}", other),
    }
    match PageUrl::create("ftp://x".to_string()) {
        Err(DomainError::InvalidPageUrl(reason)) => {
            assert_eq!(reason, "URL must start with http or /: ftp://x")
        }
        other => panic!("unexpected {:?}", other),
    }
    assert!(PageUrl::create("htt".to_string()).is_err());
}

#[test]
fn user_action_constructors_and_event() {
    let user = UserId::new();
    let product = ProductId::default();
    let amount = Amount::from_bits(99.99f64.to_bits());
    assert_eq!(f64::from_bits(amount.to_bits()), 99.99);
    let action = UserAction::purchase(user, product, amount);
    match &action {
        UserAction::Purchase { user_id, product_id, amount: a } => {
            assert_eq!(*user_id, user);
            assert_eq!(*product_id, product);
            assert_eq!(*a, amount);
        }
        _ => panic!("not a purchase"),
    }
    let event = UserAction::click(user, "buy".to_string(), page("/p")).into_event();
    assert!(event.metadata.is_empty());
    assert!(matches!(event.payload.data, UserAction::Click { .. }));
    assert!(matches!(UserAction::page_view(user, page("/")), UserAction::PageView { .. }));
}

#[test]
fn uuid_text_is_hyphenated() {
    let id = 0x550e8400e29b41d4a716446655440000u128;
    assert_eq!(UserId::from_u128(id).to_string(), "550e8400-e29b-41d4-a716-446655440000");
    assert_eq!(ProductId::from_u128(7).to_string(), "00000000-0000-0000-0000-000000000007");
    assert_eq!(ProductId::from_u128(id).as_u128(), id);
    let fresh = UserId::new();
    assert_eq!((fresh.as_u128() >> 76) & 0xF, 4);
    assert_eq!(
        uuid::Uuid::parse_str(&fresh.to_string()).unwrap().as_u128(),
        fresh.as_u128()
    );
}

#[test]
fn domain_error_texts() {
    assert_eq!(DomainError::MissingBody.to_string_with(""), "Missing request body");
    assert_eq!(
        DomainError::InvalidPageUrl("URL cannot be empty".to_string()).to_string_with(""),
        "Invalid page URL: URL cannot be empty"
    );
    assert_eq!(
        DomainError::InvalidAmount((-1.5f64).to_bits()).to_string_with("-1.5"),
        "Invalid amount: -1.5"
    );
    let parse = serde_json::from_str::<u32>("x").unwrap_err();
    let text = parse.to_string();
    assert_eq!(
        DomainError::SerializationError(parse).to_string_with(""),
        format!("Serialization error: {}", text)
    );
}

#[test]
fn ingest_config() {
    assert_eq!(Config::from_env(None).unwrap().stream_name, "kleos-stream");
    assert_eq!(Config::from_env(Some("orders".to_string())).unwrap().stream_name, "orders");
    let err = Config::from_env(Some(String::new())).unwrap_err();
    assert_eq!(
        err,
        ConfigError::InvalidValue {
            key: "KINESIS_STREAM_NAME".to_string(),
            reason: "stream name cannot be empty".to_string()
        }
    );
    assert_eq!(
        err.to_string(),
        "Invalid configuration value for KINESIS_STREAM_NAME: stream name cannot be empty"
    );
    assert_eq!(
        ConfigError::MissingEnvVar("X".to_string()).to_string(),
        "Missing environment variable: X"
    );
    assert!(ProcessConfig::from_env().is_ok());
}

#[test]
fn ingest_replies() {
    assert_eq!(
        ingest_reply(&IngestStep::Rejected("Missing request body".to_string())),
        GatewayReply { status_code: 400, body: "Invalid request: Missing request body".to_string() }
    );
    assert_eq!(
        ingest_reply(&IngestStep::IngestFailed(IngestError::SystemError("down".to_string()))),
        GatewayReply { status_code: 500, body: "Ingestion error: Ingestion failed: down".to_string() }
    );
    assert_eq!(
        ingest_reply(&IngestStep::PublishFailed(StreamError::PublishError("x".to_string()))),
        GatewayReply {
            status_code: 500,
            body: "Failed to publish event: Failed to publish to stream: x".to_string()
        }
    );
    assert_eq!(
        ingest_reply(&IngestStep::Published),
        GatewayReply { status_code: 200, body: "Event ingested successfully".to_string() }
    );
}

#[test]
fn ingest_steps() {
    assert_eq!(ingest_next(IngestEvent::Validated(Ok(()))), IngestAction::Ingest);
    assert_eq!(ingest_next(IngestEvent::Ingested(Ok(()))), IngestAction::Publish);
    assert_eq!(
        ingest_next(IngestEvent::Validated(Err("Missing request body".to_string()))),
        IngestAction::Reply(GatewayReply {
            status_code: 400,
            body: "Invalid request: Missing request body".to_string()
        })
    );
    assert_eq!(
        ingest_next(IngestEvent::Ingested(Err(IngestError::ParseError("x".to_string())))),
        IngestAction::Reply(GatewayReply {
            status_code: 500,
            body: "Ingestion error: Failed to parse payload: x".to_string()
        })
    );
    assert_eq!(
        ingest_next(IngestEvent::Published(Ok(()))),
        IngestAction::Reply(GatewayReply {
            status_code: 200,
            body: "Event ingested successfully".to_string()
        })
    );
    assert_eq!(
        ingest_next(IngestEvent::Published(Err(StreamError::ConnectionError("t".to_string())))),
        IngestAction::Reply(GatewayReply {
            status_code: 500,
            body: "Failed to publish event: Connection error: t".to_string()
        })
    );
}

#[test]
fn log_levels() {
    assert_eq!(log_for_action(ActionType::Delete), (LogLevel::Warn, "Handling DELETE action".to_string()));
    assert_eq!(log_for_action(ActionType::Create), (LogLevel::Info, "Handling CREATE action".to_string()));
    assert_eq!(log_for_action(ActionType::Update).0, LogLevel::Info);
    assert_eq!(log_for_action(ActionType::View).1, "Handling VIEW action");
    assert_eq!(
        log_for_severity(Severity::Critical),
        (LogLevel::Error, "High severity system event detected".to_string())
    );
    assert_eq!(log_for_severity(Severity::Error).0, LogLevel::Error);
    assert_eq!(log_for_severity(Severity::Warning), (LogLevel::Warn, "Warning system event".to_string()));
    assert_eq!(log_for_severity(Severity::Info), (LogLevel::Info, "Informational system event".to_string()));
}

#[test]
fn consumer_loads_until_the_first_bad_record() {
    let user = UserId::new();
    let first = UserAction::page_view(user, page("/a")).into_event();
    let second = UserAction::page_view(user, page("/b")).into_event();
    let third = UserAction::page_view(user, page("/c")).into_event();
    let first_id = first.id;
    let second_id = second.id;
    let mut consumer = KinesisBatchConsumer::new();
    let result = consumer.load(vec![Ok(first), Ok(second), Err("bad json".to_string()), Ok(third)]);
    assert_eq!(result, Err(StreamError::ConsumeError("bad json".to_string())));
    assert_eq!(consumer.consume().unwrap().unwrap().id, first_id);
    assert_eq!(consumer.consume().unwrap().unwrap().id, second_id);
    assert!(consumer.consume().unwrap().is_none());
}

#[test]
fn consumer_is_first_in_first_out() {
    let user = UserId::new();
    let a = UserAction::page_view(user, page("/a")).into_event();
    let b = UserAction::page_view(user, page("/b")).into_event();
    let (a_id, b_id) = (a.id, b.id);
    let mut consumer = KinesisBatchConsumer::default();
    assert_eq!(consumer.load(vec![Ok(a)]), Ok(()));
    assert_eq!(consumer.load(vec![Ok(b)]), Ok(()));
    let got = consumer.consume().unwrap().unwrap();
    assert_eq!(got.id, a_id);
    assert_eq!(consumer.ack(&got.id), Ok(()));
    assert_eq!(consumer.consume().unwrap().unwrap().id, b_id);
    assert!(consumer.consume().unwrap().is_none());
}

#[test]
fn batch_tally_counts() {
    let outcomes = vec![
        Ok(ProcessingResult::Success),
        Ok(ProcessingResult::Failure("no".to_string())),
        Ok(ProcessingResult::Skipped("dup".to_string())),
        Err(ProcessingError::TransientError("later".to_string())),
        Ok(ProcessingResult::Success),
    ];
    let mut tally = BatchTally::new();
    let mut acks = 0;
    for outcome in &outcomes {
        if BatchTally::acknowledges(outcome) {
            acks += 1;
        }
        tally.record(outcome);
    }
    assert_eq!(acks, 2);
    assert_eq!(tally, BatchTally { processed: 3, failed: 2 });
}

#[test]
fn batch_run_steps() {
    let mut tally = BatchTally::new();
    assert_eq!(advance(&mut tally, &BatchEvent::Loaded(Ok(()))), (BatchAction::Consume, None));
    assert_eq!(advance(&mut tally, &BatchEvent::Consumed(Ok(true))), (BatchAction::Process, None));
    assert_eq!(
        advance(&mut tally, &BatchEvent::Processed(Ok(ProcessingResult::Success))),
        (BatchAction::Acknowledge, None)
    );
    assert_eq!(tally, BatchTally { processed: 0, failed: 0 });
    assert_eq!(advance(&mut tally, &BatchEvent::Acknowledged(Ok(()))), (BatchAction::Consume, None));
    assert_eq!(tally, BatchTally { processed: 1, failed: 0 });
    assert_eq!(
        advance(
            &mut tally,
            &BatchEvent::Processed(Ok(ProcessingResult::Failure("bad".to_string())))
        ),
        (
            BatchAction::Consume,
            Some(LogLine { to_stderr: true, text: "Processing failed: bad".to_string() })
        )
    );
    assert_eq!(
        advance(
            &mut tally,
            &BatchEvent::Processed(Ok(ProcessingResult::Skipped("dup".to_string())))
        ),
        (BatchAction::Consume, Some(LogLine { to_stderr: false, text: "Skipped: dup".to_string() }))
    );
    assert_eq!(
        advance(
            &mut tally,
            &BatchEvent::Processed(Err(ProcessingError::TransientError("later".to_string())))
        ),
        (
            BatchAction::Consume,
            Some(LogLine {
                to_stderr: true,
                text: "Processing error: Transient error, retriable: later".to_string()
            })
        )
    );
    assert_eq!(
        advance(&mut tally, &BatchEvent::Consumed(Ok(false))),
        (BatchAction::Finish { processed: 2, failed: 2 }, None)
    );
    assert_eq!(
        advance(
            &mut tally,
            &BatchEvent::Acknowledged(Err(StreamError::ConnectionError("gone".to_string())))
        ),
        (BatchAction::Fail("Ack error: Connection error: gone".to_string()), None)
    );
    assert_eq!(
        advance(&mut tally, &BatchEvent::Loaded(Err(StreamError::ConsumeError("x".to_string())))),
        (
            BatchAction::Fail("Failed to load batch: Failed to consume from stream: x".to_string()),
            None
        )
    );
    assert_eq!(
        advance(&mut tally, &BatchEvent::Consumed(Err(StreamError::ConsumeError("y".to_string())))),
        (BatchAction::Fail("Consume error: Failed to consume from stream: y".to_string()), None)
    );
}

#[test]
fn clock_offsets() {
    assert_eq!(
        timestamp_at_offset(false, 7, 3),
        UtcTimestamp { seconds: 7, subsec_nanos: 3 }
    );
    assert_eq!(
        timestamp_at_offset(true, 1, 500_000_000),
        UtcTimestamp { seconds: -2, subsec_nanos: 500_000_000 }
    );
    assert_eq!(timestamp_at_offset(true, 5, 0), UtcTimestamp { seconds: -5, subsec_nanos: 0 });
    assert_eq!(
        timestamp_at_offset(false, u64::MAX, 0),
        UtcTimestamp { seconds: i64::MAX, subsec_nanos: 999_999_999 }
    );
    assert_eq!(
        timestamp_at_offset(true, u64::MAX, 1),
        UtcTimestamp { seconds: i64::MIN, subsec_nanos: 0 }
    );
    let now = utc_now();
    assert!(now.seconds > 1_600_000_000);
    assert!(now.subsec_nanos < 1_000_000_000);
}

#[test]
fn processable_record_defaults() {
    let ok: Result<u32, serde_json::Error> = serde_json::from_str("5");
    let record = ProcessableRecord::from_kinesis(ok, None, Some("pk".to_string()), 1700).unwrap();
    assert_eq!(record.data, 5);
    assert_eq!(record.metadata.sequence_number, "unknown");
    assert_eq!(record.metadata.partition_key, "pk");
    assert_eq!(record.metadata.approximate_arrival_timestamp, Some(1700));
    let bad: Result<u32, serde_json::Error> = serde_json::from_str("nope");
    let err = ProcessableRecord::from_kinesis(bad, Some("1".to_string()), None, 0);
    assert!(matches!(err, Err(RecordError::Deserialization(_))));
}

#[test]
fn stream_consumer_names_failed_records() {
    let outcomes = vec![
        RecordOutcome { sequence_number: Some("1".to_string()), succeeded: true },
        RecordOutcome { sequence_number: Some("2".to_string()), succeeded: false },
        RecordOutcome { sequence_number: None, succeeded: false },
        RecordOutcome { sequence_number: Some("4".to_string()), succeeded: true },
    ];
    let response = batch_response(outcomes);
    let names: Vec<String> =
        response.batch_item_failures.iter().map(|f| f.item_identifier.clone()).collect();
    assert_eq!(names, vec!["2".to_string(), "unknown".to_string()]);
    assert!(batch_response(Vec::new()).batch_item_failures.is_empty());
}

#[test]
fn action_names() {
    assert_eq!(parse_action_type("create"), Some(ActionType::Create));
    assert_eq!(parse_action_type("update"), Some(ActionType::Update));
    assert_eq!(parse_action_type("delete"), Some(ActionType::Delete));
    assert_eq!(parse_action_type("view"), Some(ActionType::View));
    assert_eq!(parse_action_type("Create"), None);
    assert_eq!(parse_action_type("launch"), None);
}

fn request(user_id: &str, action: &str, details: &str) -> ApiRequest {
    ApiRequest {
        user_id: user_id.to_string(),
        action: action.to_string(),
        details: details.to_string(),
    }
}

#[test]
fn domain_event_from_request() {
    let id = RequestId::new("abc".to_string());
    let event = create_domain_event(id, request(" u-1 ", "DELETE", " gone ")).unwrap();
    assert_eq!(event.request_id.as_str(), "abc");
    match event.payload {
        EventPayload::UserAction(action) => {
            assert_eq!(action.user_id.as_str(), "u-1");
            assert_eq!(action.details.as_str(), "gone");
            assert_eq!(action.action_type, ActionType::Delete);
        }
        _ => panic!("not a user action"),
    }
}

#[test]
fn domain_event_errors_in_order() {
    let id = || RequestId::new("r".to_string());
    let err = create_domain_event(id(), request(" ", "nope", "")).unwrap_err();
    assert_eq!(err, EventRequestError::InvalidUserId(ValidationError::Empty));
    assert_eq!(err.to_string(), "Invalid user_id: String is empty");
    let err = create_domain_event(id(), request("u", "nope", "")).unwrap_err();
    assert_eq!(err, EventRequestError::InvalidDetails(ValidationError::Empty));
    assert_eq!(err.to_string(), "Invalid details: String is empty");
    let err = create_domain_event(id(), request("u", "Launch", "d")).unwrap_err();
    assert_eq!(err, EventRequestError::InvalidActionType("Launch".to_string()));
    assert_eq!(err.to_string(), "Invalid action type: Launch");
    let long = "x".repeat(101);
    let err = create_domain_event(id(), request(&long, "view", "d")).unwrap_err();
    assert_eq!(err.to_string(), "Invalid user_id: String too long: max 100, got 101");
}

#[test]
fn producer_replies() {
    let id = RequestId::new("r-9".to_string());
    match producer_reply(&id, &ProducerStep::Pushed) {
        ApiReply::Accepted(response) => {
            assert_eq!(response.request_id, "r-9");
            assert_eq!(response.message, "Event accepted");
        }
        other => panic!("unexpected {:?}", other),
    }
    match producer_reply(&id, &ProducerStep::Unreadable("Empty request body".to_string())) {
        ApiReply::Refused { status, body } => {
            assert_eq!(status, 400);
            assert_eq!(body.error, "Invalid request: Empty request body");
        }
        other => panic!("unexpected {:?}", other),
    }
    let invalid = ProducerStep::Invalid(EventRequestError::InvalidActionType("x".to_string()));
    match producer_reply(&id, &invalid) {
        ApiReply::Refused { status, body } => {
            assert_eq!(status, 400);
            assert_eq!(body.error, "Validation failed: Invalid action type: x");
        }
        other => panic!("unexpected {:?}", other),
    }
    match producer_reply(&id, &ProducerStep::PushFailed) {
        ApiReply::Refused { status, body } => {
            assert_eq!(status, 500);
            assert_eq!(body.error, "Failed to process request");
        }
        other => panic!("unexpected {:?}", other),
    }
}

#[test]
fn test_end_to_end_flow() {
    // 1. Setup
    let ingestor = UserActionIngestor;
    let mut stream = KinesisBatchConsumer::new();
    let processor = UserActionProcessor;

    // 2. Ingest
    let raw_data = "hello world".to_string();
    let action = UserAction::click(UserId::new(), raw_data.clone(), page("/"));
    let event_created = ingestor.ingest(action).expect("Ingest failed");
    match &event_created.payload.data {
        UserAction::Click { element_id, .. } => assert_eq!(*element_id, raw_data),
        _ => panic!("Expected a click"),
    }
    let id = event_created.id;
    assert_eq!((id.as_u128() >> 76) & 0xF, 4);

    // 3. Publish
    stream.load(vec![Ok(event_created)]).expect("Publish failed");

    // 4. Consume
    let event_consumed = stream.consume().expect("Consume failed").expect("Stream empty");
    assert_eq!(event_consumed.id, id);
    match &event_consumed.payload.data {
        UserAction::Click { element_id, .. } => assert_eq!(*element_id, raw_data),
        _ => panic!("Expected a click"),
    }

    // 5. Process
    let result = processor.process(&event_consumed).expect("Process failed");
    match result {
        ProcessingResult::Success => (),
        _ => panic!("Expected success"),
    }

    // 6. Ack
    stream.ack(&event_consumed.id).expect("Ack failed");
    let _ = Payload::new(0u8);
}
