use entanglo::envelope::{decode_base64, encode_base64, Base64Error, EntangloMessage, EnvelopeError, PROTOCOL_VERSION};
use entanglo::message_type::MessageType;
use entanglo::payloads::HelloPayload;
use serde_json::Value;

fn hello_json(payload: &HelloPayload) -> Vec<u8> {
    let mut object = serde_json::Map::new();
    object.insert("deviceName".to_string(), Value::String(payload.device_name.clone()));
    object.insert("deviceModel".to_string(), Value::String(payload.device_model.clone()));
    object.insert("appVersion".to_string(), Value::String(payload.app_version.clone()));
    object.insert(
        "roles".to_string(),
        Value::Array(payload.roles.iter().cloned().map(Value::String).collect()),
    );
    if let Some(platform) = &payload.platform {
        object.insert("platform".to_string(), Value::String(platform.clone()));
    }
    serde_json::to_vec(&Value::Object(object)).unwrap()
}

fn hello_from_json(bytes: &[u8]) -> HelloPayload {
    let value: Value = serde_json::from_slice(bytes).expect("decode payload");
    let text = |key: &str| value[key].as_str().unwrap().to_string();
    HelloPayload {
        device_name: text("deviceName"),
        device_model: text("deviceModel"),
        app_version: text("appVersion"),
        roles: value["roles"].as_array().unwrap().iter().map(|r| r.as_str().unwrap().to_string()).collect(),
        platform: value.get("platform").map(|p| p.as_str().unwrap().to_string()),
    }
}

#[test]
fn hello_roundtrips() {
    let payload = HelloPayload {
        device_name: "LinuxDev".into(),
        device_model: "Linux".into(),
        app_version: "0.1.0".into(),
        roles: vec!["controller".into(), "receiver".into()],
        platform: Some("Linux".into()),
    };
    let msg = EntangloMessage::encode_payload(
        MessageType::Hello,
        "dev-id".to_string(),
        "sess-id".to_string(),
        &hello_json(&payload),
        0,
    );
    assert_eq!(msg.protocol_version, PROTOCOL_VERSION);
    assert_eq!(msg.sender_device_id, "dev-id");
    assert_eq!(msg.session_id, "sess-id");
    let back = msg.validate_version().ok().expect("decode envelope");
    let json = back.decode_payload().ok().expect("decode payload");
    let decoded = hello_from_json(&json);
    assert_eq!(payload, decoded);
}

#[test]
fn rejects_unsupported_protocol_version() {
    let json = br#"{
        "protocolVersion": 2,
        "messageType": "hello",
        "senderDeviceId": "x",
        "sessionId": "y",
        "timestamp": 0.0,
        "payload": ""
    }"#;
    let value: Value = serde_json::from_slice(json).unwrap();
    let msg = EntangloMessage {
        protocol_version: value["protocolVersion"].as_u64().unwrap() as u32,
        message_type: MessageType::Hello,
        sender_device_id: value["senderDeviceId"].as_str().unwrap().to_string(),
        session_id: value["sessionId"].as_str().unwrap().to_string(),
        timestamp_bits: value["timestamp"].as_f64().unwrap().to_bits(),
        payload: value["payload"].as_str().unwrap().to_string(),
    };
    let result = msg.validate_version();
    assert!(result.is_err(), "protocolVersion=2 must be rejected");
    assert!(matches!(result, Err(EnvelopeError::UnsupportedVersion(2))));
}

#[test]
fn payload_is_standard_padded_base64_of_the_json() {
    let msg = EntangloMessage::encode_payload(MessageType::Heartbeat, "a".into(), "b".into(), b"hello", 7);
    assert_eq!(msg.payload, "aGVsbG8=");
    assert_eq!(msg.timestamp_bits, 7);
    assert_eq!(msg.message_type, MessageType::Heartbeat);
    assert_eq!(encode_base64(b""), "");
    assert_eq!(encode_base64(&[0xfb, 0xff]), "+/8=");
}

#[test]
fn bad_base64_payload_is_an_error() {
    let msg = EntangloMessage {
        protocol_version: 1,
        message_type: MessageType::Hello,
        sender_device_id: "a".into(),
        session_id: "b".into(),
        timestamp_bits: 0,
        payload: "not base64!".into(),
    };
    assert!(matches!(msg.decode_payload(), Err(EnvelopeError::Base64(_))));
    assert_eq!(decode_base64("aGVsbG8"), Err(Base64Error::InvalidPadding));
    assert!(decode_base64("aGVsbG9=").is_err());
    assert_eq!(decode_base64("aGVsbG8=").unwrap(), b"hello".to_vec());
}
