use messenger::consumer::{ConsumerAction, ConsumerEvent, ConsumerLoop, ConsumerPhase};
use messenger::model::{Action, EventEnvelope, Message};
use messenger::projection::Projection;

fn receiving() -> ConsumerLoop {
    let mut consumer = ConsumerLoop::new();
    assert_eq!(consumer.step(ConsumerEvent::Ready), ConsumerAction::Receive);
    consumer
}

#[test]
fn a_loop_starts_subscribed_with_the_committed_position_of_its_group() {
    let fresh = ConsumerLoop::new();
    assert_eq!(fresh.phase(), ConsumerPhase::Subscribed);
    assert_eq!(fresh.committed(), None);
    assert!(!fresh.is_stopping());

    let resumed = ConsumerLoop::resume(Some(41));
    assert_eq!(resumed.phase(), ConsumerPhase::Subscribed);
    assert_eq!(resumed.committed(), Some(41));
}

#[test]
fn a_message_is_processed_then_committed_then_the_next_is_awaited() {
    let mut consumer = receiving();
    assert_eq!(consumer.phase(), ConsumerPhase::Receiving);

    let received = ConsumerEvent::Received { position: 7, readable: true };
    assert_eq!(consumer.step(received), ConsumerAction::Process { position: 7 });
    assert_eq!(consumer.phase(), ConsumerPhase::Processing { position: 7 });
    assert_eq!(consumer.committed(), None);

    assert_eq!(consumer.step(ConsumerEvent::Processed), ConsumerAction::Commit { position: 7 });
    assert_eq!(consumer.phase(), ConsumerPhase::Committing { position: 7 });
    assert_eq!(consumer.committed(), None);

    assert_eq!(consumer.step(ConsumerEvent::CommitIssued), ConsumerAction::Receive);
    assert_eq!(consumer.phase(), ConsumerPhase::Receiving);
    assert_eq!(consumer.committed(), Some(7));
}

#[test]
fn an_unreadable_message_is_discarded_and_not_committed() {
    let mut consumer = receiving();
    let received = ConsumerEvent::Received { position: 3, readable: false };
    assert_eq!(consumer.step(received), ConsumerAction::Discard { position: 3 });
    assert_eq!(consumer.phase(), ConsumerPhase::Receiving);
    assert_eq!(consumer.committed(), None);
    assert_eq!(consumer.step(ConsumerEvent::Resumed), ConsumerAction::Receive);

    let next = ConsumerEvent::Received { position: 4, readable: true };
    assert_eq!(consumer.step(next), ConsumerAction::Process { position: 4 });
}

#[test]
fn a_transport_failure_pauses_the_loop_and_it_receives_again() {
    let mut consumer = receiving();
    assert_eq!(consumer.step(ConsumerEvent::TransportFailed), ConsumerAction::Pause);
    assert_eq!(consumer.phase(), ConsumerPhase::Error);
    assert_eq!(consumer.step(ConsumerEvent::Resumed), ConsumerAction::Receive);
    assert_eq!(consumer.phase(), ConsumerPhase::Receiving);
    assert_eq!(consumer.step(ConsumerEvent::TransportFailed), ConsumerAction::Pause);
    assert_eq!(consumer.step(ConsumerEvent::Resumed), ConsumerAction::Receive);
}

#[test]
fn events_out_of_place_change_nothing() {
    let mut consumer = ConsumerLoop::new();
    assert_eq!(consumer.step(ConsumerEvent::Processed), ConsumerAction::Ignore);
    assert_eq!(consumer.step(ConsumerEvent::CommitIssued), ConsumerAction::Ignore);
    assert_eq!(consumer.step(ConsumerEvent::TransportFailed), ConsumerAction::Ignore);
    let early = ConsumerEvent::Received { position: 1, readable: true };
    assert_eq!(consumer.step(early), ConsumerAction::Ignore);
    assert_eq!(consumer.phase(), ConsumerPhase::Subscribed);

    consumer.step(ConsumerEvent::Ready);
    assert_eq!(consumer.step(ConsumerEvent::Processed), ConsumerAction::Ignore);
    assert_eq!(consumer.step(ConsumerEvent::CommitIssued), ConsumerAction::Ignore);
    assert_eq!(consumer.committed(), None);

    consumer.step(ConsumerEvent::Received { position: 2, readable: true });
    assert_eq!(consumer.step(ConsumerEvent::CommitIssued), ConsumerAction::Ignore);
    let second = ConsumerEvent::Received { position: 3, readable: true };
    assert_eq!(consumer.step(second), ConsumerAction::Ignore);
    assert_eq!(consumer.phase(), ConsumerPhase::Processing { position: 2 });
    assert_eq!(consumer.committed(), None);
}

#[test]
fn a_shutdown_while_waiting_stops_at_once() {
    let mut consumer = receiving();
    assert_eq!(consumer.step(ConsumerEvent::Shutdown), ConsumerAction::Stop);
    assert_eq!(consumer.phase(), ConsumerPhase::Stopped);
    assert_eq!(consumer.step(ConsumerEvent::Ready), ConsumerAction::Stop);
    assert_eq!(consumer.phase(), ConsumerPhase::Stopped);
}

#[test]
fn a_shutdown_lets_the_message_in_hand_be_committed() {
    let mut consumer = receiving();
    consumer.step(ConsumerEvent::Received { position: 9, readable: true });
    assert_eq!(consumer.step(ConsumerEvent::Shutdown), ConsumerAction::Finish);
    assert!(consumer.is_stopping());
    assert_eq!(consumer.phase(), ConsumerPhase::Processing { position: 9 });
    assert_eq!(consumer.step(ConsumerEvent::Processed), ConsumerAction::Commit { position: 9 });
    assert_eq!(consumer.step(ConsumerEvent::CommitIssued), ConsumerAction::Stop);
    assert_eq!(consumer.phase(), ConsumerPhase::Stopped);
    assert_eq!(consumer.committed(), Some(9));
}

#[test]
fn a_crash_before_the_commit_brings_the_message_again_and_the_state_is_the_same() {
    let envelope = EventEnvelope {
        action: Action::Create,
        data: Some(Message {
            message_id: 17,
            name: String::from("ada"),
            message: String::from("hello"),
        }),
        source_position: Some(5),
    };
    let mut projection = Projection::new();

    let mut consumer = receiving();
    consumer.step(ConsumerEvent::Received { position: 30, readable: true });
    assert!(projection.apply(&envelope));
    assert_eq!(consumer.step(ConsumerEvent::Processed), ConsumerAction::Commit { position: 30 });
    let stored = consumer.committed();
    assert_eq!(stored, None);
    let before = projection.record(17);
    let count = projection.record_count();

    let mut restarted = ConsumerLoop::resume(stored);
    restarted.step(ConsumerEvent::Ready);
    let again = ConsumerEvent::Received { position: 30, readable: true };
    assert_eq!(restarted.step(again), ConsumerAction::Process { position: 30 });
    assert!(!projection.apply(&envelope));
    assert_eq!(projection.record(17), before);
    assert_eq!(projection.record_count(), count);
    assert_eq!(restarted.step(ConsumerEvent::Processed), ConsumerAction::Commit { position: 30 });
    assert_eq!(restarted.step(ConsumerEvent::CommitIssued), ConsumerAction::Receive);
    assert_eq!(restarted.committed(), Some(30));
}
