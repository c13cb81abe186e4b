use widget_service::ident::is_uuid_v4_shaped;
use widget_service::widget::payload_size;
use widget_service::widget::process_widget;

fn json(text: &str) -> serde_json::Value {
    serde_json::from_str::<serde_json::Value>(text).unwrap()
}

#[test]
fn size_is_the_compact_encoding_length() {
    assert_eq!(payload_size(&json("{\"a\":1}")), 7);
    assert_eq!(payload_size(&json("[1, 2, 3]")), 7);
    assert_eq!(payload_size(&json("\"hello\"")), 7);
    assert_eq!(payload_size(&json("true")), 4);
}

#[test]
fn null_payload_measures_four_bytes() {
    assert_eq!(payload_size(&serde_json::Value::Null), 4);
}

#[test]
fn create_returns_id_and_size() {
    let payload = json("{\"a\":1}");
    let (resp, ms) = process_widget(&payload, None).unwrap();
    assert_eq!(resp.size, 7);
    assert_eq!(ms, 150);
    assert!(is_uuid_v4_shaped(&resp.id));
}

#[test]
fn created_id_is_uuid_v4_shaped() {
    let (resp, _) = process_widget(&serde_json::Value::Null, Some("0")).unwrap();
    assert_eq!(resp.id.len(), 36);
    assert!(is_uuid_v4_shaped(&resp.id));
}

#[test]
fn identical_payloads_get_distinct_ids() {
    let payload = json("{\"a\":1}");
    let (first, _) = process_widget(&payload, Some("0")).unwrap();
    let (second, _) = process_widget(&payload, Some("0")).unwrap();
    assert_ne!(first.id, second.id);
    assert_eq!(first.size, second.size);
}

#[test]
fn zero_delay_is_decided_for_zero_config() {
    let (_, ms) = process_widget(&serde_json::Value::Null, Some("0")).unwrap();
    assert_eq!(ms, 0);
}

#[test]
fn invalid_delay_config_is_fatal_for_the_request() {
    let payload = json("{\"a\":1}");
    assert!(process_widget(&payload, Some("abc")).is_none());
    assert!(process_widget(&payload, Some("")).is_none());
}

#[test]
fn malformed_bodies_fail_at_the_parsing_layer() {
    assert!(serde_json::from_str::<serde_json::Value>("{not json").is_err());
    assert!(serde_json::from_str::<serde_json::Value>("").is_err());
}

#[test]
fn checker_accepts_a_well_formed_uuid() {
    assert!(is_uuid_v4_shaped("67e55044-10b1-426f-9247-bb680e5fe0c8"));
}

#[test]
fn checker_rejects_malformed_uuids() {
    assert!(!is_uuid_v4_shaped(""));
    assert!(!is_uuid_v4_shaped("67e55044-10b1-426f-9247-bb680e5fe0c"));
    assert!(!is_uuid_v4_shaped("67e55044-10b1-426f-9247-bb680e5fe0c88"));
    assert!(!is_uuid_v4_shaped("67E55044-10B1-426F-9247-BB680E5FE0C8"));
    assert!(!is_uuid_v4_shaped("67e55044-10b1-126f-9247-bb680e5fe0c8"));
    assert!(!is_uuid_v4_shaped("67e55044-10b1-426f-7247-bb680e5fe0c8"));
    assert!(!is_uuid_v4_shaped("67e55044x10b1-426f-9247-bb680e5fe0c8"));
    assert!(!is_uuid_v4_shaped("67e55044-10g1-426f-9247-bb680e5fe0c8"));
}
