//! A consumer loop together with the projection that it feeds.
//!
//! A subscriber takes a message as it arrives: it reads the envelope,
//! applies it to the projection and asks for the commit of the message's
//! position. A message that cannot be read is discarded: it changes nothing
//! and it is not committed.

use vstd::prelude::*;
use crate::consumer::{
    consumer_step, resumed, ConsumerAction, ConsumerEvent, ConsumerLoop, ConsumerPhase,
    ConsumerState,
};
use crate::model::{direct_envelope, view_of, EnvelopeView, EventEnvelope};
use crate::projection::{applied, Projection, ProjectionView};
use crate::wire::{decode, decode_command, decoded, decoded_command};

verus! {

/// A consumer loop and its projection.
pub struct Subscriber {
    consumer: ConsumerLoop,
    projection: Projection,
}

/// A [`Subscriber`] as plain values.
pub struct SubscriberView {
    pub consumer: ConsumerState,
    pub projection: ProjectionView,
}

impl View for Subscriber {
    type V = SubscriberView;

    closed spec fn view(&self) -> SubscriberView {
        SubscriberView { consumer: self.consumer@, projection: self.projection@ }
    }
}

/// The state in which a subscriber starts: a loop for a group that has
/// committed `committed`, and a projection that holds nothing.
pub open spec fn started(committed: Option<u64>) -> SubscriberView {
    SubscriberView {
        consumer: resumed(committed),
        projection: ProjectionView { records: Map::empty(), seen: Set::empty() },
    }
}

/// What a message at `position` does to a subscriber, where `envelope` is
/// what was read from its payload: the loop takes the message and, where it
/// has an envelope and the loop asks for it to be processed, the envelope is
/// applied and reported as processed.
pub open spec fn handled(state: SubscriberView, position: u64, envelope: Option<EnvelopeView>) -> (
    SubscriberView,
    ConsumerAction,
) {
    let (received, first) = consumer_step(
        state.consumer,
        ConsumerEvent::Received { position, readable: envelope.is_some() },
    );
    if first == (ConsumerAction::Process { position }) && envelope.is_some() {
        let (processed, second) = consumer_step(received, ConsumerEvent::Processed);
        (
            SubscriberView {
                consumer: processed,
                projection: applied(state.projection, envelope.unwrap()),
            },
            second,
        )
    } else {
        (SubscriberView { consumer: received, projection: state.projection }, first)
    }
}

/// The envelope in a payload of the relay's own topic, if one can be read.
pub open spec fn envelope_in(payload: Seq<u8>) -> Option<EnvelopeView> {
    match decoded(payload) {
        Ok(envelope) => Some(envelope),
        Err(_) => None,
    }
}

/// The envelope that a command in a payload of the inbound topic stands for,
/// if one can be read.
pub open spec fn command_in(payload: Seq<u8>) -> Option<EnvelopeView> {
    match decoded_command(payload) {
        Ok(command) => Some(direct_envelope(command.action, command.data)),
        Err(_) => None,
    }
}

impl Subscriber {
    /// A subscriber for a group whose last committed position is `committed`.
    pub fn resume(committed: Option<u64>) -> (subscriber: Self)
        ensures
            subscriber@ == started(committed),
    {
        Subscriber { consumer: ConsumerLoop::resume(committed), projection: Projection::new() }
    }

    /// A subscriber that goes on from a projection that was kept, for a group
    /// whose last committed position is `committed`.
    pub fn restore(committed: Option<u64>, projection: Projection) -> (subscriber: Self)
        ensures
            subscriber@ == (SubscriberView {
                consumer: resumed(committed),
                projection: projection@,
            }),
    {
        Subscriber { consumer: ConsumerLoop::resume(committed), projection }
    }

    /// Gives up the loop and hands out the projection.
    pub fn into_projection(self) -> (projection: Projection)
        ensures
            projection@ == self@.projection,
    {
        self.projection
    }

    /// The loop of this subscriber.
    pub fn consumer(&self) -> (consumer: &ConsumerLoop)
        ensures
            consumer@ == self@.consumer,
    {
        &self.consumer
    }

    /// The projection of this subscriber.
    pub fn projection(&self) -> (projection: &Projection)
        ensures
            projection@ == self@.projection,
    {
        &self.projection
    }

    /// Takes an event of the loop. The projection stays as it is.
    pub fn step(&mut self, event: ConsumerEvent) -> (action: ConsumerAction)
        ensures
            (final(self)@.consumer, action) == consumer_step(old(self)@.consumer, event),
            final(self)@.projection == old(self)@.projection,
    {
        self.consumer.step(event)
    }

    /// Takes the message at `position` with what was read from its payload.
    ///
    /// Where the loop was receiving, a message with an envelope is applied
    /// to the projection and its commit is asked for; a message without one
    /// is discarded and changes nothing. Nothing is committed by this call.
    pub fn handle(&mut self, position: u64, envelope: Option<EventEnvelope>) -> (action:
        ConsumerAction)
        ensures
            (final(self)@, action) == handled(old(self)@, position, view_of(envelope)),
            final(self)@.consumer.committed == old(self)@.consumer.committed,
            old(self)@.consumer.phase == ConsumerPhase::Receiving ==> match envelope {
                Some(envelope) => {
                    &&& action == ConsumerAction::Commit { position }
                    &&& final(self)@.consumer.phase == ConsumerPhase::Committing { position }
                    &&& final(self)@.projection == applied(old(self)@.projection, envelope@)
                },
                None => {
                    &&& action == ConsumerAction::Discard { position }
                    &&& final(self)@ == old(self)@
                },
            },
    {
        let readable = envelope.is_some();
        let first = self.consumer.step(ConsumerEvent::Received { position, readable });
        match (first, envelope) {
            (ConsumerAction::Process { .. }, Some(envelope)) => {
                self.projection.apply(&envelope);
                self.consumer.step(ConsumerEvent::Processed)
            },
            _ => first,
        }
    }

    /// Takes the message at `position` from the relay's own topic.
    pub fn receive(&mut self, position: u64, payload: &[u8]) -> (action: ConsumerAction)
        ensures
            (final(self)@, action) == handled(old(self)@, position, envelope_in(payload@)),
    {
        let envelope = match decode(payload) {
            Ok(envelope) => Some(envelope),
            Err(_) => None,
        };
        self.handle(position, envelope)
    }

    /// Takes the message at `position` from the inbound topic.
    pub fn receive_command(&mut self, position: u64, payload: &[u8]) -> (action: ConsumerAction)
        ensures
            (final(self)@, action) == handled(old(self)@, position, command_in(payload@)),
    {
        let envelope = match decode_command(payload) {
            Ok(command) => Some(command.into_envelope()),
            Err(_) => None,
        };
        self.handle(position, envelope)
    }
}

/// A message that is delivered again after a crash, before its commit was
/// issued, leaves the projection as the first delivery left it.
pub proof fn law_redelivery_changes_nothing(
    state: SubscriberView,
    position: u64,
    envelope: EnvelopeView,
    committed: Option<u64>,
)
    requires
        state.consumer.phase == ConsumerPhase::Receiving,
    ensures
        ({
            let first = handled(state, position, Some(envelope)).0;
            let restarted = SubscriberView {
                consumer: consumer_step(resumed(committed), ConsumerEvent::Ready).0,
                projection: first.projection,
            };
            let second = handled(restarted, position, Some(envelope));
            &&& second.0.projection == first.projection
            &&& second.1 == ConsumerAction::Commit { position }
        }),
{
}

} // verus!
