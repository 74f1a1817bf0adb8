use kleos::pipeline::events::{Consumed, Created, Event, EventId, Payload};
use kleos::pipeline::metadata::Metadata;

#[test]
fn test_event_creation() {
    let payload = Payload::new("test_data".to_string());
    let event = Event::new(payload);

    assert_eq!(event.payload.data, "test_data");
    assert!(event.metadata.is_empty());
}

#[test]
fn test_event_metadata() {
    let payload = Payload::new("test_data".to_string());
    let event = Event::new(payload)
        .with_metadata("source".to_string(), "test".to_string())
        .with_metadata("priority".to_string(), "high".to_string());

    assert_eq!(event.metadata.get("source"), Some(&"test".to_string()));
    assert_eq!(event.metadata.get("priority"), Some(&"high".to_string()));
}

#[test]
fn test_event_transition() {
    let payload = Payload::new("test_data".to_string());
    let event: Event<String, Created> = Event::new(payload);
    let original_id = event.id;

    let consumed_event: Event<String, Consumed> = event.transition();

    assert_eq!(consumed_event.id, original_id);
    assert_eq!(consumed_event.payload.data, "test_data");
}

#[test]
fn metadata_overwrite_keeps_one_entry_per_key() {
    let event = Event::new(Payload::new(1u8))
        .with_metadata("k".to_string(), "first".to_string())
        .with_metadata("other".to_string(), "x".to_string())
        .with_metadata("k".to_string(), "second".to_string());
    assert_eq!(event.metadata.get("k"), Some(&"second".to_string()));
    assert_eq!(event.metadata.get("other"), Some(&"x".to_string()));
    assert_eq!(event.metadata.get("missing"), None);
    assert_eq!(event.metadata.entries().len(), 2);
    assert_eq!(event.metadata.entries()[0], ("k".to_string(), "second".to_string()));
}

#[test]
fn metadata_insert_and_clone() {
    let mut m = Metadata::new();
    assert!(m.is_empty());
    m.insert("a".to_string(), "1".to_string());
    assert!(!m.is_empty());
    let copy = m.clone();
    assert_eq!(copy.get("a"), Some(&"1".to_string()));
    assert_eq!(copy.get("b"), None);
}

#[test]
fn transition_keeps_metadata_and_time() {
    let event = Event::new(Payload::new(7u32)).with_metadata("a".to_string(), "b".to_string());
    let id = event.id;
    let at = event.created_at;
    let consumed: Event<u32, Consumed> = event.transition();
    assert_eq!(consumed.id, id);
    assert_eq!(consumed.created_at, at);
    assert_eq!(consumed.metadata.get("a"), Some(&"b".to_string()));
    assert_eq!(consumed.payload.data, 7);
}

#[test]
fn event_ids_are_fresh() {
    let a = EventId::new();
    let b = EventId::default();
    assert_ne!(a, b);
    assert_eq!(EventId::from_u128(a.as_u128()), a);
    let bits = a.as_u128();
    assert_eq!((bits >> 76) & 0xF, 4);
    assert_eq!((bits >> 62) & 0x3, 2);
    assert_eq!(
        EventId::from_u128(0x123e4567_e89b_42d3_a456_426614174000).to_string(),
        "123e4567-e89b-42d3-a456-426614174000"
    );
}
