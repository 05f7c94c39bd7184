use simulator::model::SimError;
use simulator::model::XdrField;
use simulator::pipeline::error_response;
use simulator::pipeline::invocation_failure_response;
use simulator::pipeline::success_response;

#[test]
fn error_report_shape() {
    let resp = error_response(SimError::InvalidRequest("expected value at line 1".to_string()));
    assert_eq!(resp.status, "error");
    assert_eq!(resp.error.as_deref(), Some("Invalid JSON: expected value at line 1"));
    assert!(resp.events.is_empty());
    assert!(resp.logs.is_empty());
}

#[test]
fn error_messages_name_their_field() {
    let e = SimError::InvalidEncoding(XdrField::Envelope, "bad symbol".to_string());
    assert_eq!(e.message(), "Failed to decode Envelope Base64: bad symbol");
    let e = SimError::InvalidFormat(XdrField::Envelope, "truncated".to_string());
    assert_eq!(e.message(), "Failed to parse Envelope XDR: truncated");
    let e = SimError::InvalidEncoding(XdrField::LedgerEntry, "pad".to_string());
    assert_eq!(e.message(), "Failed to decode LedgerEntry Base64: pad");
    let e = SimError::InvalidFormat(XdrField::LedgerKey, "short".to_string());
    assert_eq!(e.message(), "Failed to parse LedgerKey XDR: short");
}

#[test]
fn success_report_shape() {
    let events = vec!["event one".to_string()];
    let logs = vec!["Host Initialized. Loaded 2 Ledger Entries".to_string()];
    let resp = success_response(events.clone(), logs.clone());
    assert_eq!(resp.status, "success");
    assert!(resp.error.is_none());
    assert_eq!(resp.events, events);
    assert_eq!(resp.logs, logs);
}

#[test]
fn invocation_failure_is_classified_and_flips_status() {
    let resp = invocation_failure_response("Error: Wasm Trap: out of bounds memory access");
    assert_eq!(resp.status, "error");
    assert_eq!(
        resp.error.as_deref(),
        Some("VM Trap: Out of Bounds Access (Invalid memory read/write)")
    );
    assert!(resp.events.is_empty());
    assert!(resp.logs.is_empty());
}

#[test]
fn response_document_round_trips() {
    let mut obj = serde_json::Map::new();
    obj.insert("status".to_string(), serde_json::Value::String("success".to_string()));
    obj.insert("error".to_string(), serde_json::Value::Null);
    obj.insert("events".to_string(), serde_json::Value::Array(vec![]));
    obj.insert(
        "logs".to_string(),
        serde_json::Value::Array(vec![serde_json::Value::String(
            "Host Initialized. Loaded 0 Ledger Entries".to_string(),
        )]),
    );
    let value = serde_json::Value::Object(obj);
    let text = serde_json::to_string(&value).unwrap();
    let back: serde_json::Value = serde_json::from_str(&text).unwrap();
    assert_eq!(value, back);
}
