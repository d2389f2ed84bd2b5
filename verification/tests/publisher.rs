use messenger::emitter::{confirm, notification, EmitError, DIRECT_KEY, DIRECT_TOPIC};
use messenger::model::{Action, EventEnvelope, Message};
use messenger::publisher::{
    conclude, prepare, reply_record, OutboundRecord, PublishOutcome, SendReport,
};

fn snapshot() -> Message {
    Message {
        message_id: 0x67e55044_10b1_426f_9247_bb680e5fe0c8,
        name: String::from("ada"),
        message: String::from("hello"),
    }
}

#[test]
fn only_an_acknowledged_send_is_a_delivery() {
    assert_eq!(conclude(SendReport::Acknowledged), PublishOutcome::Delivered);
    assert_eq!(conclude(SendReport::Rejected), PublishOutcome::Transient);
    assert_eq!(conclude(SendReport::Unreachable), PublishOutcome::Transient);
    assert_eq!(conclude(SendReport::TimedOut), PublishOutcome::Transient);
}

#[test]
fn a_record_carries_the_wire_form_of_its_envelope() {
    let envelope = EventEnvelope {
        action: Action::Create,
        data: Some(snapshot()),
        source_position: Some(3),
    };
    assert_eq!(
        prepare(&envelope, "changes", "", Some(1_700_000_000_123)),
        Ok(OutboundRecord {
            topic: String::from("changes"),
            key: String::new(),
            payload: String::from(
                "{\"action\":\"Create\",\"data\":{\"recordId\":\"67e55044-10b1-426f-9247-bb680e5fe0c8\",\"name\":\"ada\",\"message\":\"hello\"},\"sourcePosition\":3}"
            ),
            timestamp: Some(1_700_000_000_123),
        })
    );
}

#[test]
fn a_direct_write_is_announced_without_a_position() {
    assert_eq!(DIRECT_TOPIC, "messages");
    assert_eq!(DIRECT_KEY, "1");
    assert_eq!(
        notification(Action::Delete, None, None),
        Ok(OutboundRecord {
            topic: String::from("messages"),
            key: String::from("1"),
            payload: String::from("{\"action\":\"Delete\",\"data\":null,\"sourcePosition\":null}"),
            timestamp: None,
        })
    );
    let announced = notification(Action::Update, Some(snapshot()), Some(5)).unwrap();
    assert_eq!(
        announced.payload,
        "{\"action\":\"Update\",\"data\":{\"recordId\":\"67e55044-10b1-426f-9247-bb680e5fe0c8\",\"name\":\"ada\",\"message\":\"hello\"},\"sourcePosition\":null}"
    );
    assert_eq!(announced.timestamp, Some(5));
}

#[test]
fn a_write_whose_notification_failed_is_reported_as_unconfirmed() {
    assert_eq!(confirm(PublishOutcome::Delivered), Ok(()));
    assert_eq!(confirm(PublishOutcome::Transient), Err(EmitError::NotificationUnconfirmed));
    assert_eq!(confirm(PublishOutcome::Fatal), Err(EmitError::NotificationUnconfirmed));
}

#[test]
fn the_answer_of_a_consumer_is_a_greeting() {
    assert_eq!(
        reply_record("answers", Some(42)),
        OutboundRecord {
            topic: String::from("answers"),
            key: String::new(),
            payload: String::from("Hello world back to you too!"),
            timestamp: Some(42),
        }
    );
}
