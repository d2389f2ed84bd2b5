//! What the poller guarantees over whole runs: no gap, and nothing lost.
//!
//! A run is a sequence of events that the poller takes one after the other.
//! The guarantees hold of runs in which every scan shows the log as it is:
//! in order, from the first entry above the watermark up to some point.

use vstd::prelude::*;
use crate::model::{envelope_of, MutationView};
use crate::poller::{
    ascending, beyond, in_hand, poller_step, resumed, PollerActionView, PollerEventView,
    PollerPhase, PollerState,
};
use crate::publisher::PublishOutcome;

verus! {

/// The state after a run of events.
pub open spec fn poller_run(state: PollerState, events: Seq<PollerEventView>) -> PollerState
    decreases events.len(),
{
    if events.len() == 0 {
        state
    } else {
        poller_step(poller_run(state, events.drop_last()), events.last()).0
    }
}

/// The position whose delivery an event confirms, if it confirms one: the
/// publisher reports success for the entry that was offered.
pub open spec fn confirmed(state: PollerState, event: PollerEventView) -> Option<u64> {
    if state.phase == PollerPhase::Publishing && event == PollerEventView::Published(
        PublishOutcome::Delivered,
    ) && state.pending.len() > 0 {
        Some(state.pending[0].position)
    } else {
        None
    }
}

/// `known` and the position that `event` confirms in `state`.
pub open spec fn with_confirmed(
    known: Set<u64>,
    state: PollerState,
    event: PollerEventView,
) -> Set<u64> {
    match confirmed(state, event) {
        Some(position) => known.insert(position),
        None => known,
    }
}

/// The positions whose delivery was confirmed during a run.
pub open spec fn delivered(state: PollerState, events: Seq<PollerEventView>) -> Set<u64>
    decreases events.len(),
{
    if events.len() == 0 {
        Set::empty()
    } else {
        with_confirmed(
            delivered(state, events.drop_last()),
            poller_run(state, events.drop_last()),
            events.last(),
        )
    }
}

/// Whether `batch` is the stretch of `log` from index `from` up to `to`, and
/// `from` is where the log passes `watermark`.
pub open spec fn covers(
    log: Seq<MutationView>,
    watermark: u64,
    batch: Seq<MutationView>,
    from: int,
    to: int,
) -> bool {
    &&& 0 <= from <= to <= log.len()
    &&& batch == log.subrange(from, to)
    &&& forall|i: int| 0 <= i < from ==> (#[trigger] log[i]).position <= watermark
    &&& forall|i: int| from <= i < to ==> (#[trigger] log[i]).position > watermark
}

/// Whether `batch` shows the log above `watermark`: its entries in order,
/// from the first one above the watermark up to some point.
pub open spec fn shows(log: Seq<MutationView>, watermark: u64, batch: Seq<MutationView>) -> bool {
    exists|from: int, to: int| covers(log, watermark, batch, from, to)
}

/// Whether an event, where it brings a scan that the poller awaits, shows the
/// log above the poller's watermark.
pub open spec fn faithful_event(
    log: Seq<MutationView>,
    state: PollerState,
    event: PollerEventView,
) -> bool {
    match event {
        PollerEventView::Scanned(rows) => state.phase == PollerPhase::Scanning ==> shows(
            log,
            state.watermark,
            beyond(rows, state.watermark),
        ),
        _ => true,
    }
}

/// Whether every scan of a run shows the log.
pub open spec fn faithful(
    log: Seq<MutationView>,
    state: PollerState,
    events: Seq<PollerEventView>,
) -> bool
    decreases events.len(),
{
    events.len() == 0 || (faithful(log, state, events.drop_last()) && faithful_event(
        log,
        poller_run(state, events.drop_last()),
        events.last(),
    ))
}

/// What holds of a poller that started at the watermark `start`, of the log
/// that it tails and of the positions `known` to be delivered.
pub open spec fn sound(
    log: Seq<MutationView>,
    start: u64,
    state: PollerState,
    known: Set<u64>,
) -> bool {
    &&& start <= state.watermark
    &&& state.watermark == start || known.contains(state.watermark)
    &&& forall|i: int|
        0 <= i < log.len() && start < (#[trigger] log[i]).position <= state.watermark
            ==> known.contains(log[i].position)
    &&& forall|position: u64, i: int|
        #[trigger] known.contains(position) && 0 <= i < log.len() && state.watermark < (
        #[trigger] log[i]).position ==> position <= log[i].position
    &&& in_hand(state.phase) ==> state.pending.len() > 0 && shows(
        log,
        state.watermark,
        state.pending,
    )
    &&& state.phase == PollerPhase::Persisting ==> known.contains(state.pending[0].position)
}

proof fn lemma_step_keeps_sound(
    log: Seq<MutationView>,
    start: u64,
    state: PollerState,
    known: Set<u64>,
    event: PollerEventView,
)
    requires
        ascending(log),
        sound(log, start, state, known),
        faithful_event(log, state, event),
    ensures
        sound(log, start, poller_step(state, event).0, with_confirmed(known, state, event)),
{
    if in_hand(state.phase) {
        let (from, to) = choose|from: int, to: int|
            covers(log, state.watermark, state.pending, from, to);
        let first = state.pending[0];
        // The first entry in hand is the first of the log above the watermark.
        assert forall|i: int| 0 <= i < log.len() && state.watermark < (
        #[trigger] log[i]).position implies first.position <= log[i].position by {}
        if state.phase == PollerPhase::Persisting && event == PollerEventView::Persisted(true) {
            let reached = first.position;
            // Up to the new watermark the log holds nothing that is not delivered.
            assert forall|i: int|
                0 <= i < log.len() && start < (#[trigger] log[i]).position <= reached
                    implies known.contains(log[i].position) by {}
            if poller_step(state, event).0.phase == PollerPhase::Publishing {
                // What stays in hand is the log from the next entry on.
                assert(state.pending.drop_first() =~= log.subrange(from + 1, to));
                assert forall|i: int| 0 <= i < from + 1 implies (#[trigger] log[i]).position
                    <= reached by {}
                assert forall|i: int| from + 1 <= i < to implies (#[trigger] log[i]).position
                    > reached by {}
                assert(covers(log, reached, state.pending.drop_first(), from + 1, to));
            }
        }
    }
}

proof fn lemma_run_keeps_sound(
    log: Seq<MutationView>,
    start: u64,
    events: Seq<PollerEventView>,
)
    requires
        ascending(log),
        faithful(log, resumed(start), events),
    ensures
        sound(log, start, poller_run(resumed(start), events), delivered(resumed(start), events)),
    decreases events.len(),
{
    if events.len() > 0 {
        lemma_run_keeps_sound(log, start, events.drop_last());
        lemma_step_keeps_sound(
            log,
            start,
            poller_run(resumed(start), events.drop_last()),
            delivered(resumed(start), events.drop_last()),
            events.last(),
        );
    }
}

/// The poller never skips ahead: of two entries of the log above the
/// watermark at which the poller started, the later one is delivered only if
/// the earlier one is.
pub proof fn law_no_gap(
    log: Seq<MutationView>,
    start: u64,
    events: Seq<PollerEventView>,
    earlier: int,
    later: int,
)
    requires
        ascending(log),
        faithful(log, resumed(start), events),
        0 <= earlier < later < log.len(),
        start < log[earlier].position,
        delivered(resumed(start), events).contains(log[later].position),
    ensures
        delivered(resumed(start), events).contains(log[earlier].position),
{
    lemma_run_keeps_sound(log, start, events);
}

/// Nothing is lost: an entry of the log above the watermark at which the
/// poller started has been delivered, or lies above the watermark still, so
/// that the next scan holds it.
pub proof fn law_delivered_or_still_ahead(
    log: Seq<MutationView>,
    start: u64,
    events: Seq<PollerEventView>,
    entry: int,
)
    requires
        ascending(log),
        faithful(log, resumed(start), events),
        0 <= entry < log.len(),
        start < log[entry].position,
    ensures
        delivered(resumed(start), events).contains(log[entry].position) || poller_run(
            resumed(start),
            events,
        ).watermark < log[entry].position,
{
    lemma_run_keeps_sound(log, start, events);
}

/// The watermark moves only to a position that was delivered, and never
/// below the one at which the poller started.
pub proof fn law_watermark_follows_delivery(
    log: Seq<MutationView>,
    start: u64,
    events: Seq<PollerEventView>,
)
    requires
        ascending(log),
        faithful(log, resumed(start), events),
    ensures
        start <= poller_run(resumed(start), events).watermark,
        poller_run(resumed(start), events).watermark == start || delivered(
            resumed(start),
            events,
        ).contains(poller_run(resumed(start), events).watermark),
{
    lemma_run_keeps_sound(log, start, events);
}

/// A poller that starts again from the stored watermark loses nothing: every
/// entry above the first watermark was delivered before the restart or after
/// it, or lies above the watermark still.
pub proof fn law_restart_loses_nothing(
    log: Seq<MutationView>,
    start: u64,
    before: Seq<PollerEventView>,
    after: Seq<PollerEventView>,
    entry: int,
)
    requires
        ascending(log),
        faithful(log, resumed(start), before),
        faithful(log, resumed(poller_run(resumed(start), before).watermark), after),
        0 <= entry < log.len(),
        start < log[entry].position,
    ensures
        ({
            let stored = poller_run(resumed(start), before).watermark;
            ||| delivered(resumed(start), before).contains(log[entry].position)
            ||| delivered(resumed(stored), after).contains(log[entry].position)
            ||| poller_run(resumed(stored), after).watermark < log[entry].position
        }),
{
    let stored = poller_run(resumed(start), before).watermark;
    law_delivered_or_still_ahead(log, start, before, entry);
    if stored < log[entry].position {
        law_delivered_or_still_ahead(log, stored, after, entry);
    }
}

proof fn lemma_split(log: Seq<MutationView>, seen: int, watermark: u64) -> (from: int)
    requires
        ascending(log),
        0 <= seen <= log.len(),
    ensures
        covers(log, watermark, beyond(log.take(seen), watermark), from, seen),
    decreases seen,
{
    reveal(Seq::filter);
    if seen == 0 {
        0
    } else {
        let before = lemma_split(log, seen - 1, watermark);
        assert(log.take(seen).drop_last() =~= log.take(seen - 1));
        if log[seen - 1].position > watermark {
            assert(log.subrange(before, seen - 1).push(log[seen - 1]) =~= log.subrange(
                before,
                seen,
            ));
            before
        } else {
            // The last entry seen lies at or below the watermark, and so do
            // all before it: nothing of them is above.
            assert(log.subrange(seen - 1, seen - 1) =~= log.subrange(seen, seen));
            assert forall|i: int| 0 <= i < seen implies (#[trigger] log[i]).position
                <= watermark by {}
            seen
        }
    }
}

/// A scan that returns the entries that the log held up to some point, or
/// those of them above the watermark, shows the log.
pub proof fn law_scan_of_the_log_shows_it(log: Seq<MutationView>, seen: int, watermark: u64)
    requires
        ascending(log),
        0 <= seen <= log.len(),
    ensures
        shows(log, watermark, beyond(log.take(seen), watermark)),
        shows(log, watermark, beyond(beyond(log.take(seen), watermark), watermark)),
{
    lemma_split(log, seen, watermark);
    lemma_all_beyond(beyond(log.take(seen), watermark), watermark);
}

proof fn lemma_all_beyond(rows: Seq<MutationView>, watermark: u64)
    requires
        forall|i: int| 0 <= i < rows.len() ==> (#[trigger] rows[i]).position > watermark,
    ensures
        beyond(rows, watermark) == rows,
    decreases rows.len(),
{
    reveal(Seq::filter);
    if rows.len() > 0 {
        lemma_all_beyond(rows.drop_last(), watermark);
    }
}

proof fn lemma_run_in_two(
    state: PollerState,
    first: Seq<PollerEventView>,
    second: Seq<PollerEventView>,
)
    ensures
        poller_run(state, first + second) == poller_run(poller_run(state, first), second),
        delivered(state, first + second) == delivered(state, first).union(
            delivered(poller_run(state, first), second),
        ),
    decreases second.len(),
{
    if second.len() > 0 {
        assert((first + second).drop_last() =~= first + second.drop_last());
        lemma_run_in_two(state, first, second.drop_last());
    }
}

/// The answers of a bus and a store that both work: for each of `count`
/// entries a delivery, and then a stored position.
pub open spec fn all_succeed(count: nat) -> Seq<PollerEventView>
    decreases count,
{
    if count == 0 {
        Seq::empty()
    } else {
        seq![
            PollerEventView::Published(PublishOutcome::Delivered),
            PollerEventView::Persisted(true),
        ] + all_succeed((count - 1) as nat)
    }
}

/// The events of a tick in which the scan returns `rows` and everything
/// succeeds for `count` entries.
pub open spec fn clean_tick(rows: Seq<MutationView>, count: nat) -> Seq<PollerEventView> {
    seq![PollerEventView::Tick, PollerEventView::Scanned(rows)] + all_succeed(count)
}

proof fn lemma_two_steps(state: PollerState, first: PollerEventView, second: PollerEventView)
    ensures
        poller_run(state, seq![first, second]) == poller_step(
            poller_step(state, first).0,
            second,
        ).0,
        delivered(state, seq![first, second]) == with_confirmed(
            with_confirmed(Set::empty(), state, first),
            poller_step(state, first).0,
            second,
        ),
{
    let one = seq![first];
    assert(seq![first, second].drop_last() =~= one);
    assert(poller_run(state, one.drop_last()) == state);
    assert(poller_run(state, one) == poller_step(state, first).0);
    assert(delivered(state, one.drop_last()) == Set::<u64>::empty());
    assert(delivered(state, one) == with_confirmed(Set::empty(), state, first));
}

proof fn lemma_answers_drain(state: PollerState)
    requires
        state.phase == PollerPhase::Publishing,
        !state.stopping,
        state.pending.len() > 0,
    ensures
        poller_run(state, all_succeed(state.pending.len())) == resumed(
            state.pending.last().position,
        ),
        forall|i: int|
            0 <= i < state.pending.len() ==> delivered(
                state,
                all_succeed(state.pending.len()),
            ).contains(#[trigger] state.pending[i].position),
    decreases state.pending.len(),
{
    let count = state.pending.len();
    let delivery = PollerEventView::Published(PublishOutcome::Delivered);
    let stored = PollerEventView::Persisted(true);
    let head = seq![delivery, stored];
    let tail = all_succeed((count - 1) as nat);
    let next = poller_step(poller_step(state, delivery).0, stored).0;
    lemma_two_steps(state, delivery, stored);
    lemma_run_in_two(state, head, tail);
    if count > 1 {
        let rest = state.pending.drop_first();
        lemma_answers_drain(next);
        assert forall|i: int| 0 <= i < count implies delivered(state, all_succeed(count)).contains(
            #[trigger] state.pending[i].position,
        ) by {
            if i > 0 {
                assert(rest[i - 1] == state.pending[i]);
            }
        }
    }
}

/// Where the bus and the store work for one tick, the tick delivers every
/// entry that its scan brought, and the watermark ends at the last of them.
pub proof fn law_clean_tick_delivers_all(watermark: u64, rows: Seq<MutationView>)
    requires
        beyond(rows, watermark).len() > 0,
        ascending(beyond(rows, watermark)),
    ensures
        ({
            let batch = beyond(rows, watermark);
            let events = clean_tick(rows, batch.len());
            &&& poller_run(resumed(watermark), events) == resumed(batch.last().position)
            &&& forall|i: int|
                0 <= i < batch.len() ==> delivered(resumed(watermark), events).contains(
                    #[trigger] batch[i].position,
                )
        }),
{
    let batch = beyond(rows, watermark);
    let start = seq![PollerEventView::Tick, PollerEventView::Scanned(rows)];
    let answers = all_succeed(batch.len());
    lemma_two_steps(resumed(watermark), PollerEventView::Tick, PollerEventView::Scanned(rows));
    lemma_run_in_two(resumed(watermark), start, answers);
    lemma_answers_drain(poller_run(resumed(watermark), start));
}

/// Whether the entries in hand rise strictly and lie above the watermark.
pub open spec fn in_order(state: PollerState) -> bool {
    &&& ascending(state.pending)
    &&& forall|i: int|
        0 <= i < state.pending.len() ==> state.watermark < (#[trigger] state.pending[i]).position
}

/// Entries are offered in the order of their positions: what is offered is
/// the first entry in hand, which lies above the watermark and below every
/// other entry in hand, and the watermark never falls.
pub proof fn law_offers_in_rising_order(state: PollerState, event: PollerEventView)
    requires
        in_order(state),
    ensures
        in_order(poller_step(state, event).0),
        state.watermark <= poller_step(state, event).0.watermark,
        poller_step(state, event).1 matches PollerActionView::Publish(envelope) ==> {
            let next = poller_step(state, event).0;
            &&& next.phase == PollerPhase::Publishing
            &&& next.pending.len() > 0
            &&& envelope == envelope_of(next.pending[0])
        },
{
    if state.phase == PollerPhase::Persisting && state.pending.len() > 0 {
        let rest = state.pending.drop_first();
        assert forall|i: int| 0 <= i < rest.len() implies state.pending[0].position < (
        #[trigger] rest[i]).position by {}
        assert forall|i: int, j: int| 0 <= i < j < rest.len() implies rest[i].position
            < rest[j].position by {}
    }
}

/// One scan at a time: a scan is asked for only on a tick that finds the
/// poller between two ticks, and the poller then awaits that scan.
pub proof fn law_one_scan_at_a_time(state: PollerState, event: PollerEventView)
    requires
        poller_step(state, event).1 is Scan,
    ensures
        state.phase == PollerPhase::Idle,
        event == PollerEventView::Tick,
        poller_step(state, event).0.phase == PollerPhase::Scanning,
        poller_step(state, event).1 == (PollerActionView::Scan { after: state.watermark }),
{
}

/// The poller ends only on a shutdown signal, and never while an entry is
/// in hand: a signal that finds one in hand lets it finish.
pub proof fn law_poller_stops_only_on_shutdown(state: PollerState, event: PollerEventView)
    requires
        state.phase != PollerPhase::Stopped,
        poller_step(state, event).0.phase == PollerPhase::Stopped,
    ensures
        event == PollerEventView::Shutdown || state.stopping,
        event == PollerEventView::Shutdown ==> !in_hand(state.phase),
{
}

} // verus!
