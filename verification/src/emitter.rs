//! The direct-write emitter: the notification that is sent right after a
//! write to the store has succeeded.
//!
//! The write is committed by the time the emitter runs. Where the
//! notification cannot be confirmed the caller learns so, and the write
//! stands: the poller will find the mutation in the log and publish it.

use vstd::prelude::*;
use crate::model::{direct_envelope, view_of, Action, EventEnvelope, Message};
use crate::publisher::{prepare, record_of, OutboundRecord, PublishOutcome};

verus! {

/// The topic that carries the notifications of direct writes.
pub const DIRECT_TOPIC: &'static str = "messages";

/// The key under which the notifications of direct writes are sent.
pub const DIRECT_KEY: &'static str = "1";

/// The write succeeded, and its notification was not confirmed.
#[derive(Clone, Copy, Debug, PartialEq, Eq, Structural)]
pub enum EmitError {
    NotificationUnconfirmed,
}

/// The record that notifies of a direct write: an envelope without a log
/// position, for the topic of direct writes.
///
/// Fails exactly where the envelope has no wire form.
pub fn notification(action: Action, data: Option<Message>, timestamp: Option<i64>) -> (prepared:
    Result<OutboundRecord, EmitError>)
    ensures
        match prepared {
            Ok(record) => record_of(
                direct_envelope(action, view_of(data)),
                DIRECT_TOPIC@,
                DIRECT_KEY@,
                timestamp,
            ) == Some(record@),
            Err(_) => record_of(
                direct_envelope(action, view_of(data)),
                DIRECT_TOPIC@,
                DIRECT_KEY@,
                timestamp,
            ).is_none(),
        },
{
    let envelope = EventEnvelope::direct(action, data);
    match prepare(&envelope, DIRECT_TOPIC, DIRECT_KEY, timestamp) {
        Ok(record) => Ok(record),
        Err(_) => Err(EmitError::NotificationUnconfirmed),
    }
}

/// What the emitter tells its caller once the publisher has answered: all is
/// well where the notification was delivered, and otherwise that the write
/// stands without a confirmed notification.
pub fn confirm(outcome: PublishOutcome) -> (result: Result<(), EmitError>)
    ensures
        result.is_ok() == (outcome == PublishOutcome::Delivered),
{
    match outcome {
        PublishOutcome::Delivered => Ok(()),
        _ => Err(EmitError::NotificationUnconfirmed),
    }
}

} // verus!
