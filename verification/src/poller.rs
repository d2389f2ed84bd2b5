//! The poller that tails the mutation log, as a function from state and
//! event to next state and action.
//!
//! On a tick the poller asks for a scan of the log beyond its watermark. It
//! then offers the entries to the publisher one at a time, in the order of
//! their positions. Only when an entry was delivered and its position was
//! stored does the watermark move to it and the next entry follow. Any
//! failure ends the tick where it stands, so that the next tick starts again
//! with the entry that failed.

use std::collections::VecDeque;
use vstd::prelude::*;
use crate::model::{envelope_of, EnvelopeView, EventEnvelope, MutationRecord, MutationView};
use crate::publisher::PublishOutcome;

verus! {

/// The seconds between two ticks, where nothing else is configured.
pub const DEFAULT_INTERVAL_SECS: u64 = 60;

/// Where the poller stands.
#[derive(Clone, Copy, Debug, PartialEq, Eq, Structural)]
pub enum PollerPhase {
    /// Between two ticks.
    Idle,
    /// A scan of the log is under way.
    Scanning,
    /// The first entry in hand has been offered to the publisher.
    Publishing,
    /// The first entry in hand was delivered; its position is being stored.
    Persisting,
    /// The poller has ended after a shutdown signal.
    Stopped,
}

/// What the caller reports to the poller.
#[derive(Debug, PartialEq, Eq)]
pub enum PollerEvent {
    /// The interval has passed.
    Tick,
    /// The scan returned these entries.
    Scanned(Vec<MutationRecord>),
    /// The scan failed.
    ScanFailed,
    /// The publisher has answered for the entry that was offered.
    Published(PublishOutcome),
    /// The watermark store has answered: `true` if the position is stored.
    Persisted(bool),
    /// The poller is asked to end.
    Shutdown,
}

/// A [`PollerEvent`] as plain values.
pub enum PollerEventView {
    Tick,
    Scanned(Seq<MutationView>),
    ScanFailed,
    Published(PublishOutcome),
    Persisted(bool),
    Shutdown,
}

/// The views of a sequence of log entries.
pub open spec fn views(rows: Seq<MutationRecord>) -> Seq<MutationView> {
    rows.map_values(|row: MutationRecord| row@)
}

impl View for PollerEvent {
    type V = PollerEventView;

    open spec fn view(&self) -> PollerEventView {
        match self {
            PollerEvent::Tick => PollerEventView::Tick,
            PollerEvent::Scanned(rows) => PollerEventView::Scanned(views(rows@)),
            PollerEvent::ScanFailed => PollerEventView::ScanFailed,
            PollerEvent::Published(outcome) => PollerEventView::Published(*outcome),
            PollerEvent::Persisted(stored) => PollerEventView::Persisted(*stored),
            PollerEvent::Shutdown => PollerEventView::Shutdown,
        }
    }
}

/// What the poller asks of the caller.
#[derive(Debug, PartialEq, Eq)]
pub enum PollerAction {
    /// Read the log's entries with a position above `after`, in rising order.
    Scan { after: u64 },
    /// Offer this envelope to the publisher.
    Publish(EventEnvelope),
    /// Store `position` as the watermark.
    Persist { position: u64 },
    /// Sleep until the next tick.
    Wait,
    /// Complete the operation in hand and report it as usual.
    Finish,
    /// Leave the loop.
    Stop,
    /// The event does not belong to the present phase; nothing changed.
    Ignore,
}

/// A [`PollerAction`] as plain values.
pub enum PollerActionView {
    Scan { after: u64 },
    Publish(EnvelopeView),
    Persist { position: u64 },
    Wait,
    Finish,
    Stop,
    Ignore,
}

impl View for PollerAction {
    type V = PollerActionView;

    open spec fn view(&self) -> PollerActionView {
        match self {
            PollerAction::Scan { after } => PollerActionView::Scan { after: *after },
            PollerAction::Publish(envelope) => PollerActionView::Publish(envelope@),
            PollerAction::Persist { position } => PollerActionView::Persist { position: *position },
            PollerAction::Wait => PollerActionView::Wait,
            PollerAction::Finish => PollerActionView::Finish,
            PollerAction::Stop => PollerActionView::Stop,
            PollerAction::Ignore => PollerActionView::Ignore,
        }
    }
}

/// The state of the poller as plain values.
pub struct PollerState {
    /// The highest position that was delivered and stored.
    pub watermark: u64,
    pub phase: PollerPhase,
    /// The entries of this tick that are still to be stored, in rising order.
    pub pending: Seq<MutationView>,
    /// Whether a shutdown was asked for while an entry was in hand.
    pub stopping: bool,
}

/// The state in which a poller starts, given the watermark that was stored.
pub open spec fn resumed(watermark: u64) -> PollerState {
    PollerState {
        watermark,
        phase: PollerPhase::Idle,
        pending: Seq::empty(),
        stopping: false,
    }
}

/// The entries of `rows` with a position above `watermark`, in their order.
pub open spec fn beyond(rows: Seq<MutationView>, watermark: u64) -> Seq<MutationView> {
    rows.filter(|row: MutationView| row.position > watermark)
}

/// Whether the positions rise strictly from each entry to the next.
pub open spec fn ascending(rows: Seq<MutationView>) -> bool {
    forall|i: int, j: int| 0 <= i < j < rows.len() ==> rows[i].position < rows[j].position
}

/// Whether an entry is in hand in this phase.
pub open spec fn in_hand(phase: PollerPhase) -> bool {
    phase == PollerPhase::Publishing || phase == PollerPhase::Persisting
}

/// The end of a tick, with the watermark where it then stands.
pub open spec fn tick_ended(state: PollerState, watermark: u64) -> (PollerState, PollerActionView) {
    if state.stopping {
        (
            PollerState {
                watermark,
                phase: PollerPhase::Stopped,
                pending: Seq::empty(),
                stopping: true,
            },
            PollerActionView::Stop,
        )
    } else {
        (
            PollerState {
                watermark,
                phase: PollerPhase::Idle,
                pending: Seq::empty(),
                stopping: false,
            },
            PollerActionView::Wait,
        )
    }
}

/// The transition function of the poller.
pub open spec fn poller_step(state: PollerState, event: PollerEventView) -> (
    PollerState,
    PollerActionView,
) {
    match (state.phase, event) {
        (PollerPhase::Stopped, _) => (state, PollerActionView::Stop),
        (_, PollerEventView::Shutdown) => if in_hand(state.phase) {
            (PollerState { stopping: true, ..state }, PollerActionView::Finish)
        } else {
            (
                PollerState {
                    phase: PollerPhase::Stopped,
                    pending: Seq::empty(),
                    ..state
                },
                PollerActionView::Stop,
            )
        },
        (PollerPhase::Idle, PollerEventView::Tick) => (
            PollerState { phase: PollerPhase::Scanning, ..state },
            PollerActionView::Scan { after: state.watermark },
        ),
        (PollerPhase::Scanning, PollerEventView::Scanned(rows)) => {
            let batch = beyond(rows, state.watermark);
            if batch.len() > 0 && ascending(batch) {
                (
                    PollerState { phase: PollerPhase::Publishing, pending: batch, ..state },
                    PollerActionView::Publish(envelope_of(batch[0])),
                )
            } else {
                tick_ended(state, state.watermark)
            }
        },
        (PollerPhase::Scanning, PollerEventView::ScanFailed) => tick_ended(
            state,
            state.watermark,
        ),
        (PollerPhase::Publishing, PollerEventView::Published(outcome)) => {
            if outcome == PublishOutcome::Delivered && state.pending.len() > 0 {
                (
                    PollerState { phase: PollerPhase::Persisting, ..state },
                    PollerActionView::Persist { position: state.pending[0].position },
                )
            } else {
                tick_ended(state, state.watermark)
            }
        },
        (PollerPhase::Persisting, PollerEventView::Persisted(stored)) => {
            if stored && state.pending.len() > 0 {
                let reached = state.pending[0].position;
                let rest = state.pending.drop_first();
                if state.stopping || rest.len() == 0 {
                    tick_ended(state, reached)
                } else {
                    (
                        PollerState {
                            watermark: reached,
                            phase: PollerPhase::Publishing,
                            pending: rest,
                            ..state
                        },
                        PollerActionView::Publish(envelope_of(rest[0])),
                    )
                }
            } else {
                tick_ended(state, state.watermark)
            }
        },
        _ => (state, PollerActionView::Ignore),
    }
}

/// The poller of one mutation log.
pub struct Poller {
    watermark: u64,
    phase: PollerPhase,
    queue: VecDeque<MutationRecord>,
    stopping: bool,
}

impl View for Poller {
    type V = PollerState;

    closed spec fn view(&self) -> PollerState {
        PollerState {
            watermark: self.watermark,
            phase: self.phase,
            pending: views(self.queue@),
            stopping: self.stopping,
        }
    }
}

proof fn lemma_beyond_of_one(row: MutationView, watermark: u64)
    ensures
        beyond(seq![row], watermark) == if row.position > watermark {
            seq![row]
        } else {
            Seq::<MutationView>::empty()
        },
{
    reveal_with_fuel(Seq::filter, 2);
}

/// Moves the entries with a position above `watermark` into a queue, in
/// their order.
fn select_beyond(rows: Vec<MutationRecord>, watermark: u64) -> (queue: VecDeque<MutationRecord>)
    ensures
        views(queue@) == beyond(views(rows@), watermark),
{
    let ghost all = views(rows@);
    let mut rows = rows;
    let mut queue: VecDeque<MutationRecord> = VecDeque::new();
    proof {
        reveal(Seq::filter);
    }
    while rows.len() > 0
        invariant
            rows.len() <= all.len(),
            views(rows@) == all.take(rows.len() as int),
            views(queue@) == beyond(all.subrange(rows.len() as int, all.len() as int), watermark),
        decreases rows.len(),
    {
        let ghost before = rows@;
        let ghost at = rows.len() - 1;
        let row = rows.pop().unwrap();
        proof {
            assert(row@ == views(before)[at]);
            let tail = all.subrange(at + 1, all.len() as int);
            assert(all.subrange(at, all.len() as int) =~= seq![all[at]] + tail);
            Seq::filter_distributes_over_add(
                seq![all[at]],
                tail,
                |row: MutationView| row.position > watermark,
            );
            lemma_beyond_of_one(all[at], watermark);
        }
        if row.position > watermark {
            queue.push_front(row);
        }
    }
    proof {
        assert(all.subrange(0, all.len() as int) =~= all);
    }
    queue
}

/// Whether the positions in the queue rise strictly.
fn is_ascending(queue: &VecDeque<MutationRecord>) -> (rising: bool)
    ensures
        rising == ascending(views(queue@)),
{
    if queue.len() == 0 {
        return true;
    }
    let mut i: usize = 1;
    while i < queue.len()
        invariant
            1 <= i <= queue.len(),
            ascending(views(queue@).take(i as int)),
        decreases queue.len() - i,
    {
        if queue[i - 1].position >= queue[i].position {
            proof {
                let rows = views(queue@);
                assert(!(rows[i - 1].position < rows[i as int].position));
            }
            return false;
        }
        proof {
            let rows = views(queue@);
            let known = rows.take(i as int);
            let next = rows.take(i + 1);
            assert forall|a: int, b: int| 0 <= a < b < next.len() implies #[trigger] next[a].position
                < #[trigger] next[b].position by {
                if b == i && a < i - 1 {
                    assert(known[a].position < known[i - 1].position);
                }
            }
        }
        i += 1;
    }
    proof {
        let rows = views(queue@);
        assert(rows.take(i as int) =~= rows);
    }
    true
}

impl Poller {
    /// A poller that starts from the watermark that was stored, or from the
    /// beginning of the log where none was.
    pub fn resume(stored: Option<u64>) -> (poller: Self)
        ensures
            poller@ == resumed(
                match stored {
                    Some(watermark) => watermark,
                    None => 0,
                },
            ),
    {
        let watermark = match stored {
            Some(watermark) => watermark,
            None => 0,
        };
        let poller = Poller {
            watermark,
            phase: PollerPhase::Idle,
            queue: VecDeque::new(),
            stopping: false,
        };
        assert(poller@.pending =~= Seq::<MutationView>::empty());
        poller
    }

    /// The highest position that was delivered and stored.
    pub fn watermark(&self) -> (watermark: u64)
        ensures
            watermark == self@.watermark,
    {
        self.watermark
    }

    /// The phase in which the poller stands.
    pub fn phase(&self) -> (phase: PollerPhase)
        ensures
            phase == self@.phase,
    {
        self.phase
    }

    /// Whether the poller will stop once the entry in hand is done with.
    pub fn is_stopping(&self) -> (stopping: bool)
        ensures
            stopping == self@.stopping,
    {
        self.stopping
    }

    /// The number of entries of this tick that are still to be stored.
    pub fn pending_len(&self) -> (count: usize)
        ensures
            count == self@.pending.len(),
    {
        self.queue.len()
    }

    fn end_tick(&mut self, watermark: u64) -> (action: PollerAction)
        ensures
            (final(self)@, action@) == tick_ended(old(self)@, watermark),
    {
        self.watermark = watermark;
        self.queue.clear();
        assert(views(self.queue@) =~= Seq::<MutationView>::empty());
        if self.stopping {
            self.phase = PollerPhase::Stopped;
            PollerAction::Stop
        } else {
            self.phase = PollerPhase::Idle;
            PollerAction::Wait
        }
    }

    /// Takes one event and returns what the caller is to do next.
    pub fn step(&mut self, event: PollerEvent) -> (action: PollerAction)
        ensures
            (final(self)@, action@) == poller_step(old(self)@, event@),
    {
        if let PollerPhase::Stopped = self.phase {
            return PollerAction::Stop;
        }
        match event {
            PollerEvent::Shutdown => match self.phase {
                PollerPhase::Publishing | PollerPhase::Persisting => {
                    self.stopping = true;
                    PollerAction::Finish
                },
                _ => {
                    self.phase = PollerPhase::Stopped;
                    self.queue.clear();
                    assert(views(self.queue@) =~= Seq::<MutationView>::empty());
                    PollerAction::Stop
                },
            },
            PollerEvent::Tick => match self.phase {
                PollerPhase::Idle => {
                    self.phase = PollerPhase::Scanning;
                    PollerAction::Scan { after: self.watermark }
                },
                _ => PollerAction::Ignore,
            },
            PollerEvent::Scanned(rows) => match self.phase {
                PollerPhase::Scanning => {
                    let batch = select_beyond(rows, self.watermark);
                    if batch.len() > 0 && is_ascending(&batch) {
                        let envelope = EventEnvelope::from_mutation(&batch[0]);
                        self.queue = batch;
                        self.phase = PollerPhase::Publishing;
                        PollerAction::Publish(envelope)
                    } else {
                        self.end_tick(self.watermark)
                    }
                },
                _ => PollerAction::Ignore,
            },
            PollerEvent::ScanFailed => match self.phase {
                PollerPhase::Scanning => self.end_tick(self.watermark),
                _ => PollerAction::Ignore,
            },
            PollerEvent::Published(outcome) => match self.phase {
                PollerPhase::Publishing => {
                    let delivered = match outcome {
                        PublishOutcome::Delivered => true,
                        _ => false,
                    };
                    if delivered && self.queue.len() > 0 {
                        self.phase = PollerPhase::Persisting;
                        PollerAction::Persist { position: self.queue[0].position }
                    } else {
                        self.end_tick(self.watermark)
                    }
                },
                _ => PollerAction::Ignore,
            },
            PollerEvent::Persisted(stored) => match self.phase {
                PollerPhase::Persisting => {
                    if stored && self.queue.len() > 0 {
                        let ghost held = self.queue@;
                        let first = self.queue.pop_front().unwrap();
                        let reached = first.position;
                        proof {
                            assert(views(self.queue@) =~= views(held).drop_first());
                        }
                        if self.stopping || self.queue.len() == 0 {
                            self.end_tick(reached)
                        } else {
                            self.watermark = reached;
                            self.phase = PollerPhase::Publishing;
                            PollerAction::Publish(EventEnvelope::from_mutation(&self.queue[0]))
                        }
                    } else {
                        self.end_tick(self.watermark)
                    }
                },
                _ => PollerAction::Ignore,
            },
        }
    }
}

} // verus!
