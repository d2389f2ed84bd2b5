//! The inbound consumer loop, as a function from state and event to next
//! state and action.
//!
//! The caller owns the connection to the bus. It performs the action that a
//! step returns and reports what happened as the next event. A message's
//! position is committed only after the caller has reported that the message
//! was processed.

use vstd::prelude::*;

verus! {

/// Where the loop stands.
#[derive(Clone, Copy, Debug, PartialEq, Eq, Structural)]
pub enum ConsumerPhase {
    /// The subscription has been asked for; nothing was received yet.
    Subscribed,
    /// Waiting for the next message.
    Receiving,
    /// The message at `position` is being processed.
    Processing { position: u64 },
    /// The message at `position` was processed and its commit is under way.
    Committing { position: u64 },
    /// The transport failed; the loop pauses before it receives again.
    Error,
    /// The loop has ended after a shutdown signal.
    Stopped,
}

/// What the caller reports to the loop.
#[derive(Clone, Copy, Debug, PartialEq, Eq, Structural)]
pub enum ConsumerEvent {
    /// The subscription stands.
    Ready,
    /// A message arrived at `position`; `readable` says whether an envelope
    /// could be read from its payload.
    Received { position: u64, readable: bool },
    /// The message in hand was processed.
    Processed,
    /// The commit was handed to the bus; its acknowledgment is not awaited.
    CommitIssued,
    /// Receiving failed.
    TransportFailed,
    /// A pause is over, or a discarded message was logged.
    Resumed,
    /// The loop is asked to end.
    Shutdown,
}

/// What the loop asks of the caller.
#[derive(Clone, Copy, Debug, PartialEq, Eq, Structural)]
pub enum ConsumerAction {
    /// Wait for the next message.
    Receive,
    /// Apply the envelope of the message at `position`.
    Process { position: u64 },
    /// Log the unreadable message at `position` and leave it uncommitted.
    Discard { position: u64 },
    /// Commit `position` for the subscriber's group.
    Commit { position: u64 },
    /// Log the transport failure and pause.
    Pause,
    /// Complete the operation in hand and report it as usual.
    Finish,
    /// Leave the loop.
    Stop,
    /// The event does not belong to the present phase; nothing changed.
    Ignore,
}

/// The state of the loop as plain values.
#[derive(Clone, Copy, Debug, PartialEq, Eq, Structural)]
pub struct ConsumerState {
    pub phase: ConsumerPhase,
    /// The position that was committed last, if any was.
    pub committed: Option<u64>,
    /// Whether a shutdown was asked for while a message was in hand.
    pub stopping: bool,
}

/// The state in which a loop starts, given the position that its group has
/// committed.
pub open spec fn resumed(committed: Option<u64>) -> ConsumerState {
    ConsumerState { phase: ConsumerPhase::Subscribed, committed, stopping: false }
}

/// Whether a message is in hand in this phase.
pub open spec fn in_hand(phase: ConsumerPhase) -> bool {
    phase is Processing || phase is Committing
}

/// The transition function of the loop.
pub open spec fn consumer_step(state: ConsumerState, event: ConsumerEvent) -> (
    ConsumerState,
    ConsumerAction,
) {
    match (state.phase, event) {
        (ConsumerPhase::Stopped, _) => (state, ConsumerAction::Stop),
        (_, ConsumerEvent::Shutdown) => if in_hand(state.phase) {
            (ConsumerState { stopping: true, ..state }, ConsumerAction::Finish)
        } else {
            (ConsumerState { phase: ConsumerPhase::Stopped, ..state }, ConsumerAction::Stop)
        },
        (ConsumerPhase::Subscribed, ConsumerEvent::Ready) => (
            ConsumerState { phase: ConsumerPhase::Receiving, ..state },
            ConsumerAction::Receive,
        ),
        (ConsumerPhase::Receiving, ConsumerEvent::Received { position, readable }) => if readable {
            (
                ConsumerState { phase: ConsumerPhase::Processing { position }, ..state },
                ConsumerAction::Process { position },
            )
        } else {
            (state, ConsumerAction::Discard { position })
        },
        (ConsumerPhase::Receiving, ConsumerEvent::Resumed) => (state, ConsumerAction::Receive),
        (ConsumerPhase::Receiving, ConsumerEvent::TransportFailed) => (
            ConsumerState { phase: ConsumerPhase::Error, ..state },
            ConsumerAction::Pause,
        ),
        (ConsumerPhase::Error, ConsumerEvent::Resumed) => (
            ConsumerState { phase: ConsumerPhase::Receiving, ..state },
            ConsumerAction::Receive,
        ),
        (ConsumerPhase::Processing { position }, ConsumerEvent::Processed) => (
            ConsumerState { phase: ConsumerPhase::Committing { position }, ..state },
            ConsumerAction::Commit { position },
        ),
        (ConsumerPhase::Committing { position }, ConsumerEvent::CommitIssued) => if state.stopping {
            (
                ConsumerState {
                    phase: ConsumerPhase::Stopped,
                    committed: Some(position),
                    stopping: true,
                },
                ConsumerAction::Stop,
            )
        } else {
            (
                ConsumerState {
                    phase: ConsumerPhase::Receiving,
                    committed: Some(position),
                    stopping: false,
                },
                ConsumerAction::Receive,
            )
        },
        _ => (state, ConsumerAction::Ignore),
    }
}

/// The state after a run of events.
pub open spec fn consumer_run(state: ConsumerState, events: Seq<ConsumerEvent>) -> ConsumerState
    decreases events.len(),
{
    if events.len() == 0 {
        state
    } else {
        consumer_step(consumer_run(state, events.drop_last()), events.last()).0
    }
}

/// Whether the message at `position` was reported as processed during a run
/// of events.
pub open spec fn processed_in(
    state: ConsumerState,
    events: Seq<ConsumerEvent>,
    position: u64,
) -> bool
    decreases events.len(),
{
    if events.len() == 0 {
        false
    } else {
        let before = consumer_run(state, events.drop_last());
        processed_in(state, events.drop_last(), position) || (before.phase
            == ConsumerPhase::Processing { position } && events.last() == ConsumerEvent::Processed)
    }
}

/// The inbound consumer loop.
pub struct ConsumerLoop {
    state: ConsumerState,
}

impl View for ConsumerLoop {
    type V = ConsumerState;

    closed spec fn view(&self) -> ConsumerState {
        self.state
    }
}

impl ConsumerLoop {
    /// A loop for a group that has committed nothing yet.
    pub fn new() -> (consumer: Self)
        ensures
            consumer@ == resumed(None),
    {
        ConsumerLoop::resume(None)
    }

    /// A loop for a group whose last committed position is `committed`.
    pub fn resume(committed: Option<u64>) -> (consumer: Self)
        ensures
            consumer@ == resumed(committed),
    {
        ConsumerLoop {
            state: ConsumerState { phase: ConsumerPhase::Subscribed, committed, stopping: false },
        }
    }

    /// The phase in which the loop stands.
    pub fn phase(&self) -> (phase: ConsumerPhase)
        ensures
            phase == self@.phase,
    {
        self.state.phase
    }

    /// The position that was committed last.
    pub fn committed(&self) -> (committed: Option<u64>)
        ensures
            committed == self@.committed,
    {
        self.state.committed
    }

    /// Whether the loop will stop once the message in hand is committed.
    pub fn is_stopping(&self) -> (stopping: bool)
        ensures
            stopping == self@.stopping,
    {
        self.state.stopping
    }

    /// Takes one event and returns what the caller is to do next.
    ///
    /// The committed position changes only where the commit of a processed
    /// message is reported as issued.
    pub fn step(&mut self, event: ConsumerEvent) -> (action: ConsumerAction)
        ensures
            (final(self)@, action) == consumer_step(old(self)@, event),
            final(self)@.committed != old(self)@.committed ==> event == ConsumerEvent::CommitIssued
                && old(self)@.phase == (ConsumerPhase::Committing {
                position: final(self)@.committed->0,
            }),
    {
        let state = self.state;
        if let ConsumerPhase::Stopped = state.phase {
            return ConsumerAction::Stop;
        }
        if let ConsumerEvent::Shutdown = event {
            return match state.phase {
                ConsumerPhase::Processing { .. } | ConsumerPhase::Committing { .. } => {
                    self.state.stopping = true;
                    ConsumerAction::Finish
                },
                _ => {
                    self.state.phase = ConsumerPhase::Stopped;
                    ConsumerAction::Stop
                },
            };
        }
        match state.phase {
            ConsumerPhase::Subscribed => match event {
                ConsumerEvent::Ready => {
                    self.state.phase = ConsumerPhase::Receiving;
                    ConsumerAction::Receive
                },
                _ => ConsumerAction::Ignore,
            },
            ConsumerPhase::Receiving => match event {
                ConsumerEvent::Received { position, readable } => {
                    if readable {
                        self.state.phase = ConsumerPhase::Processing { position };
                        ConsumerAction::Process { position }
                    } else {
                        ConsumerAction::Discard { position }
                    }
                },
                ConsumerEvent::Resumed => ConsumerAction::Receive,
                ConsumerEvent::TransportFailed => {
                    self.state.phase = ConsumerPhase::Error;
                    ConsumerAction::Pause
                },
                _ => ConsumerAction::Ignore,
            },
            ConsumerPhase::Error => match event {
                ConsumerEvent::Resumed => {
                    self.state.phase = ConsumerPhase::Receiving;
                    ConsumerAction::Receive
                },
                _ => ConsumerAction::Ignore,
            },
            ConsumerPhase::Processing { position } => match event {
                ConsumerEvent::Processed => {
                    self.state.phase = ConsumerPhase::Committing { position };
                    ConsumerAction::Commit { position }
                },
                _ => ConsumerAction::Ignore,
            },
            ConsumerPhase::Committing { position } => match event {
                ConsumerEvent::CommitIssued => {
                    self.state.committed = Some(position);
                    if state.stopping {
                        self.state.phase = ConsumerPhase::Stopped;
                        ConsumerAction::Stop
                    } else {
                        self.state.phase = ConsumerPhase::Receiving;
                        ConsumerAction::Receive
                    }
                },
                _ => ConsumerAction::Ignore,
            },
            ConsumerPhase::Stopped => ConsumerAction::Stop,
        }
    }
}

/// A commit is asked for only in answer to the report that the message in
/// hand was processed, and for that message's position.
pub proof fn law_commit_follows_processing(state: ConsumerState, event: ConsumerEvent, position: u64)
    requires
        consumer_step(state, event).1 == (ConsumerAction::Commit { position }),
    ensures
        state.phase == (ConsumerPhase::Processing { position }),
        event == ConsumerEvent::Processed,
{
}

/// Whatever the events, a loop that waits for a commit waits for the commit
/// of a message that was processed during the run, and a position that was
/// committed during the run is that of such a message.
pub proof fn law_committed_was_processed(
    committed: Option<u64>,
    events: Seq<ConsumerEvent>,
    position: u64,
)
    ensures
        consumer_run(resumed(committed), events).phase == (ConsumerPhase::Committing { position })
            ==> processed_in(resumed(committed), events, position),
        consumer_run(resumed(committed), events).committed == Some(position) ==> committed == Some(
            position,
        ) || processed_in(resumed(committed), events, position),
    decreases events.len(),
{
    if events.len() > 0 {
        law_committed_was_processed(committed, events.drop_last(), position);
    }
}

/// A shutdown never abandons a message in hand: the loop stops at once only
/// where none is in hand, and otherwise goes on until the commit is issued.
pub proof fn law_shutdown_finishes_what_is_in_hand(state: ConsumerState)
    requires
        state.phase != ConsumerPhase::Stopped,
    ensures
        in_hand(state.phase) ==> consumer_step(state, ConsumerEvent::Shutdown).0.phase
            == state.phase,
        !in_hand(state.phase) ==> consumer_step(state, ConsumerEvent::Shutdown).0.phase
            == ConsumerPhase::Stopped,
        state.phase is Committing && state.stopping ==> consumer_step(
            state,
            ConsumerEvent::CommitIssued,
        ).0.phase == ConsumerPhase::Stopped,
{
}

/// The loop ends only on a shutdown signal, and never while a message is in
/// hand: a signal that finds one in hand lets its commit be issued first.
pub proof fn law_loop_stops_only_on_shutdown(state: ConsumerState, event: ConsumerEvent)
    requires
        state.phase != ConsumerPhase::Stopped,
        consumer_step(state, event).0.phase == ConsumerPhase::Stopped,
    ensures
        event == ConsumerEvent::Shutdown || state.stopping,
        event == ConsumerEvent::Shutdown ==> !in_hand(state.phase),
        event != ConsumerEvent::Shutdown ==> state.phase is Committing,
{
}

} // verus!
