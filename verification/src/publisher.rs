//! The event publisher: the one place where the relay hands data to the bus.
//!
//! Publishing has a part that computes and a part that sends. This module
//! holds the first: it brings an envelope into the record that is sent, and
//! it reads the transport's report as an outcome. Nothing here tries again;
//! whoever publishes decides whether to offer an envelope a second time.

use vstd::prelude::*;
use crate::model::{EnvelopeView, EventEnvelope};
use crate::wire::{encode, wire_text};

verus! {

/// How one attempt to publish ended.
#[derive(Clone, Copy, Debug, PartialEq, Eq, Structural)]
pub enum PublishOutcome {
    /// The bus has acknowledged durable receipt.
    Delivered,
    /// The bus could not be reached, rejected the send or did not answer in
    /// time. The same envelope may be offered again.
    Transient,
    /// The envelope could not be brought into its wire form. Offering it
    /// again cannot help.
    Fatal,
}

/// What the transport reports of one send.
#[derive(Clone, Copy, Debug, PartialEq, Eq, Structural)]
pub enum SendReport {
    /// The bus has acknowledged durable receipt.
    Acknowledged,
    /// The bus refused the record.
    Rejected,
    /// The bus could not be reached.
    Unreachable,
    /// No answer came within the time allowed.
    TimedOut,
}

/// A record as it is handed to the transport.
#[derive(Debug, PartialEq, Eq)]
pub struct OutboundRecord {
    pub topic: String,
    pub key: String,
    pub payload: String,
    /// Milliseconds since the Unix epoch, where the sender has a clock.
    pub timestamp: Option<i64>,
}

/// An [`OutboundRecord`] as plain values.
pub struct OutboundRecordView {
    pub topic: Seq<char>,
    pub key: Seq<char>,
    pub payload: Seq<char>,
    pub timestamp: Option<i64>,
}

impl View for OutboundRecord {
    type V = OutboundRecordView;

    open spec fn view(&self) -> OutboundRecordView {
        OutboundRecordView {
            topic: self.topic@,
            key: self.key@,
            payload: self.payload@,
            timestamp: self.timestamp,
        }
    }
}

/// The outcome that a transport's report stands for: delivered where the bus
/// has acknowledged, a transient failure otherwise.
pub open spec fn outcome_of(report: SendReport) -> PublishOutcome {
    match report {
        SendReport::Acknowledged => PublishOutcome::Delivered,
        _ => PublishOutcome::Transient,
    }
}

/// The record for an envelope, where the envelope has a wire form.
pub open spec fn record_of(
    envelope: EnvelopeView,
    topic: Seq<char>,
    key: Seq<char>,
    timestamp: Option<i64>,
) -> Option<OutboundRecordView> {
    match wire_text(envelope) {
        Some(payload) => Some(OutboundRecordView { topic, key, payload, timestamp }),
        None => None,
    }
}

/// Brings an envelope into the record that is sent to `topic`.
///
/// Fails, with [`PublishOutcome::Fatal`], exactly where the envelope has no
/// wire form.
pub fn prepare(envelope: &EventEnvelope, topic: &str, key: &str, timestamp: Option<i64>) -> (prepared:
    Result<OutboundRecord, PublishOutcome>)
    ensures
        match prepared {
            Ok(record) => record_of(envelope@, topic@, key@, timestamp) == Some(record@),
            Err(outcome) => outcome == PublishOutcome::Fatal && record_of(
                envelope@,
                topic@,
                key@,
                timestamp,
            ).is_none(),
        },
{
    match encode(envelope) {
        Some(payload) => Ok(
            OutboundRecord { topic: topic.to_owned(), key: key.to_owned(), payload, timestamp },
        ),
        None => Err(PublishOutcome::Fatal),
    }
}

/// Reads the transport's report of a send as the outcome of publishing.
pub fn conclude(report: SendReport) -> (outcome: PublishOutcome)
    ensures
        outcome == outcome_of(report),
{
    match report {
        SendReport::Acknowledged => PublishOutcome::Delivered,
        _ => PublishOutcome::Transient,
    }
}

/// The record with which a consumer answers a message: a greeting to
/// `target_topic`, with an empty key.
pub fn reply_record(target_topic: &str, timestamp: Option<i64>) -> (record: OutboundRecord)
    ensures
        record@ == (OutboundRecordView {
            topic: target_topic@,
            key: ""@,
            payload: "Hello world back to you too!"@,
            timestamp,
        }),
{
    OutboundRecord {
        topic: target_topic.to_owned(),
        key: "".to_owned(),
        payload: "Hello world back to you too!".to_owned(),
        timestamp,
    }
}

} // verus!
