use messenger::model::{Action, EventEnvelope, KafkaMessage, Message};
use messenger::wire::{
    action_name, decimal_text, decode, decode_command, encode, envelope_from_parts, parse_action,
    snapshot_from_parts, DecodeError,
};

const RECORD: u128 = 0xa1a2a3a4_b1b2_c1c2_d1d2_d3d4d5d6d7d8;

fn snapshot(name: &str, message: &str) -> Message {
    Message { message_id: RECORD, name: String::from(name), message: String::from(message) }
}

#[test]
fn an_envelope_from_the_log_is_written_with_its_snapshot_and_position() {
    let envelope = EventEnvelope {
        action: Action::Update,
        data: Some(snapshot("ada", "hello")),
        source_position: Some(12),
    };
    assert_eq!(
        encode(&envelope),
        Some(String::from(
            "{\"action\":\"Update\",\"data\":{\"recordId\":\"a1a2a3a4-b1b2-c1c2-d1d2-d3d4d5d6d7d8\",\"name\":\"ada\",\"message\":\"hello\"},\"sourcePosition\":12}"
        ))
    );
}

#[test]
fn an_envelope_without_snapshot_and_position_is_written_with_nulls() {
    let envelope = EventEnvelope { action: Action::Delete, data: None, source_position: None };
    assert_eq!(
        encode(&envelope),
        Some(String::from("{\"action\":\"Delete\",\"data\":null,\"sourcePosition\":null}"))
    );
    let create = EventEnvelope { action: Action::Create, data: None, source_position: Some(0) };
    assert_eq!(
        encode(&create),
        Some(String::from("{\"action\":\"Create\",\"data\":null,\"sourcePosition\":0}"))
    );
}

#[test]
fn texts_are_escaped_as_json_strings() {
    let envelope = EventEnvelope {
        action: Action::Create,
        data: Some(snapshot("a\"b", "line\nbreak \\ tab\t")),
        source_position: None,
    };
    assert_eq!(
        encode(&envelope),
        Some(String::from(
            "{\"action\":\"Create\",\"data\":{\"recordId\":\"a1a2a3a4-b1b2-c1c2-d1d2-d3d4d5d6d7d8\",\"name\":\"a\\\"b\",\"message\":\"line\\nbreak \\\\ tab\\t\"},\"sourcePosition\":null}"
        ))
    );
}

#[test]
fn what_is_written_is_a_json_object_with_the_three_members() {
    let envelope = EventEnvelope {
        action: Action::Create,
        data: Some(snapshot("grace", "hopper {}[],:")),
        source_position: Some(u64::MAX),
    };
    let text = encode(&envelope).unwrap();
    let value: serde_json::Value = serde_json::from_str(&text).unwrap();
    let object = value.as_object().unwrap();
    assert_eq!(object.len(), 3);
    assert_eq!(value.get("action").and_then(|v| v.as_str()), Some("Create"));
    assert_eq!(value.get("sourcePosition").and_then(|v| v.as_u64()), Some(u64::MAX));
    let data = value.get("data").unwrap();
    assert_eq!(data.as_object().unwrap().len(), 3);
    assert_eq!(
        data.get("recordId").and_then(|v| v.as_str()),
        Some("a1a2a3a4-b1b2-c1c2-d1d2-d3d4d5d6d7d8")
    );
    assert_eq!(data.get("name").and_then(|v| v.as_str()), Some("grace"));
    assert_eq!(data.get("message").and_then(|v| v.as_str()), Some("hopper {}[],:"));
}

#[test]
fn what_is_written_is_read_back_as_the_same_envelope() {
    let envelopes = vec![
        EventEnvelope { action: Action::Create, data: Some(snapshot("ada", "one")), source_position: Some(1) },
        EventEnvelope { action: Action::Update, data: Some(snapshot("é\u{1F600}", "\"\\\n")), source_position: None },
        EventEnvelope { action: Action::Delete, data: None, source_position: Some(u64::MAX) },
        EventEnvelope { action: Action::Delete, data: None, source_position: None },
    ];
    for envelope in envelopes {
        let text = encode(&envelope).unwrap();
        assert_eq!(decode(text.as_bytes()), Ok(envelope));
    }
}

#[test]
fn an_envelope_is_read_from_its_wire_form() {
    let payload = br#" { "sourcePosition": 7, "action": "Create",
        "data": { "name": "ada", "recordId": "A1A2A3A4-B1B2-C1C2-D1D2-D3D4D5D6D7D8", "message": "hi", "extra": true } } "#;
    assert_eq!(
        decode(payload),
        Ok(EventEnvelope {
            action: Action::Create,
            data: Some(snapshot("ada", "hi")),
            source_position: Some(7),
        })
    );
}

#[test]
fn missing_or_null_members_are_read_as_absent() {
    assert_eq!(
        decode(br#"{"action":"Delete"}"#),
        Ok(EventEnvelope { action: Action::Delete, data: None, source_position: None })
    );
    assert_eq!(
        decode(br#"{"action":"Update","data":null,"sourcePosition":null}"#),
        Ok(EventEnvelope { action: Action::Update, data: None, source_position: None })
    );
}

#[test]
fn a_payload_that_is_no_json_document_is_malformed() {
    assert_eq!(decode(b""), Err(DecodeError::Malformed));
    assert_eq!(decode(b"not json"), Err(DecodeError::Malformed));
    assert_eq!(decode(br#"{"action":"Create""#), Err(DecodeError::Malformed));
    assert_eq!(decode(&[0xff, 0xfe]), Err(DecodeError::Malformed));
    assert_eq!(decode_command(b"{"), Err(DecodeError::Malformed));
}

#[test]
fn a_document_without_a_known_action_is_refused() {
    assert_eq!(decode(b"{}"), Err(DecodeError::Action));
    assert_eq!(decode(b"[]"), Err(DecodeError::Action));
    assert_eq!(decode(b"12"), Err(DecodeError::Action));
    assert_eq!(decode(br#"{"action":"Upsert"}"#), Err(DecodeError::Action));
    assert_eq!(decode(br#"{"action":"create"}"#), Err(DecodeError::Action));
    assert_eq!(decode(br#"{"action":1}"#), Err(DecodeError::Action));
    assert_eq!(decode(br#"{"action":null,"data":7}"#), Err(DecodeError::Action));
    assert_eq!(decode_command(br#"{"data":null}"#), Err(DecodeError::Action));
}

#[test]
fn data_that_is_no_snapshot_is_refused() {
    assert_eq!(decode(br#"{"action":"Create","data":7}"#), Err(DecodeError::Data));
    assert_eq!(decode(br#"{"action":"Create","data":{}}"#), Err(DecodeError::Data));
    assert_eq!(
        decode(br#"{"action":"Create","data":{"recordId":"a1a2a3a4-b1b2-c1c2-d1d2-d3d4d5d6d7d8","name":"ada"}}"#),
        Err(DecodeError::Data)
    );
    assert_eq!(
        decode(br#"{"action":"Create","data":{"recordId":"not-a-uuid","name":"ada","message":"hi"}}"#),
        Err(DecodeError::Data)
    );
    assert_eq!(
        decode(br#"{"action":"Create","data":{"recordId":"a1a2a3a4-b1b2-c1c2-d1d2-d3d4d5d6d7d8","name":1,"message":"hi"}}"#),
        Err(DecodeError::Data)
    );
    assert_eq!(
        decode(br#"{"action":"Create","data":"x","sourcePosition":"y"}"#),
        Err(DecodeError::Data)
    );
}

#[test]
fn a_position_that_is_no_position_is_refused() {
    assert_eq!(
        decode(br#"{"action":"Create","sourcePosition":"7"}"#),
        Err(DecodeError::Position)
    );
    assert_eq!(decode(br#"{"action":"Create","sourcePosition":-1}"#), Err(DecodeError::Position));
    assert_eq!(decode(br#"{"action":"Create","sourcePosition":1.5}"#), Err(DecodeError::Position));
    assert_eq!(
        decode(br#"{"action":"Create","sourcePosition":18446744073709551616}"#),
        Err(DecodeError::Position)
    );
    assert_eq!(
        decode(br#"{"action":"Create","sourcePosition":18446744073709551615}"#),
        Ok(EventEnvelope { action: Action::Create, data: None, source_position: Some(u64::MAX) })
    );
}

#[test]
fn a_command_is_read_without_a_position_and_names_its_record_by_message_id() {
    assert_eq!(
        decode_command(br#"{"action":"Create","data":null}"#),
        Ok(KafkaMessage { action: Action::Create, data: None })
    );
    assert_eq!(
        decode_command(
            br#"{"action":"Update","data":{"message_id":"a1a2a3a4-b1b2-c1c2-d1d2-d3d4d5d6d7d8","name":"ada","message":"hi"},"sourcePosition":"ignored"}"#
        ),
        Ok(KafkaMessage { action: Action::Update, data: Some(snapshot("ada", "hi")) })
    );
    assert_eq!(
        decode_command(
            br#"{"action":"Update","data":{"recordId":"a1a2a3a4-b1b2-c1c2-d1d2-d3d4d5d6d7d8","name":"ada","message":"hi"}}"#
        ),
        Err(DecodeError::Data)
    );
}

#[test]
fn a_command_becomes_an_envelope_without_a_position() {
    let command = KafkaMessage { action: Action::Update, data: Some(snapshot("ada", "hi")) };
    assert_eq!(
        command.into_envelope(),
        EventEnvelope { action: Action::Update, data: Some(snapshot("ada", "hi")), source_position: None }
    );
}

#[test]
fn actions_have_their_names() {
    assert_eq!(action_name(Action::Create), "Create");
    assert_eq!(action_name(Action::Update), "Update");
    assert_eq!(action_name(Action::Delete), "Delete");
    assert_eq!(parse_action("Create"), Some(Action::Create));
    assert_eq!(parse_action("Update"), Some(Action::Update));
    assert_eq!(parse_action("Delete"), Some(Action::Delete));
    assert_eq!(parse_action("delete"), None);
    assert_eq!(parse_action("Create "), None);
    assert_eq!(parse_action(""), None);
}

#[test]
fn numbers_are_written_in_decimal() {
    assert_eq!(decimal_text(0), "0");
    assert_eq!(decimal_text(7), "7");
    assert_eq!(decimal_text(10), "10");
    assert_eq!(decimal_text(1203), "1203");
    assert_eq!(decimal_text(9_000_000_000), "9000000000");
    assert_eq!(decimal_text(u64::MAX), "18446744073709551615");
}

#[test]
fn a_snapshot_needs_all_three_parts() {
    assert_eq!(snapshot_from_parts(Some(RECORD), Some("ada"), Some("hi")), Some(snapshot("ada", "hi")));
    assert_eq!(snapshot_from_parts(None, Some("ada"), Some("hi")), None);
    assert_eq!(snapshot_from_parts(Some(RECORD), None, Some("hi")), None);
    assert_eq!(snapshot_from_parts(Some(RECORD), Some("ada"), None), None);
}

#[test]
fn the_first_part_in_error_decides() {
    assert_eq!(
        envelope_from_parts(Some(Action::Create), Ok(None), Ok(Some(3))),
        Ok(EventEnvelope { action: Action::Create, data: None, source_position: Some(3) })
    );
    assert_eq!(
        envelope_from_parts(None, Err(DecodeError::Data), Err(DecodeError::Position)),
        Err(DecodeError::Action)
    );
    assert_eq!(
        envelope_from_parts(Some(Action::Create), Err(DecodeError::Data), Err(DecodeError::Position)),
        Err(DecodeError::Data)
    );
    assert_eq!(
        envelope_from_parts(Some(Action::Create), Ok(None), Err(DecodeError::Position)),
        Err(DecodeError::Position)
    );
}
