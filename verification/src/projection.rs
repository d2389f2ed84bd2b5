//! The state that a consumer builds from the envelopes it receives.
//!
//! The side effect of an envelope is an upsert or a removal in a table of
//! snapshots, keyed by record. Every envelope is applied at most once: the
//! keys of the envelopes that were applied are kept, and an envelope whose
//! key is among them changes nothing.

use std::collections::HashMap;
use vstd::prelude::*;
use crate::model::{key_of, view_of, Action, DedupKey, EnvelopeView, EventEnvelope, Message, MessageView};

verus! {

broadcast use vstd::std_specs::hash::group_hash_axioms;

/// The snapshots that a consumer holds and the keys of what it has applied.
pub struct Projection {
    records: HashMap<u128, Message>,
    seen: Vec<DedupKey>,
}

/// A [`Projection`] as a table of snapshots and a set of keys.
pub struct ProjectionView {
    pub records: Map<u128, MessageView>,
    pub seen: Set<DedupKey>,
}

impl View for Projection {
    type V = ProjectionView;

    closed spec fn view(&self) -> ProjectionView {
        ProjectionView {
            records: self.records@.map_values(|snapshot: Message| snapshot@),
            seen: self.seen@.to_set(),
        }
    }
}

/// What an envelope does to the table: a snapshot is put in its record's
/// place, or taken out where the action is a delete. An envelope without a
/// snapshot names no record and leaves the table as it is.
pub open spec fn effect(records: Map<u128, MessageView>, envelope: EnvelopeView) -> Map<
    u128,
    MessageView,
> {
    match envelope.data {
        Some(snapshot) => match envelope.action {
            Action::Delete => records.remove(snapshot.message_id),
            _ => records.insert(snapshot.message_id, snapshot),
        },
        None => records,
    }
}

/// The projection after one delivery of `envelope`.
pub open spec fn applied(state: ProjectionView, envelope: EnvelopeView) -> ProjectionView {
    if state.seen.contains(key_of(envelope)) {
        state
    } else {
        ProjectionView {
            records: effect(state.records, envelope),
            seen: state.seen.insert(key_of(envelope)),
        }
    }
}

/// The projection after the deliveries of `envelopes`, first to last.
pub open spec fn applied_all(state: ProjectionView, envelopes: Seq<EnvelopeView>) -> ProjectionView
    decreases envelopes.len(),
{
    if envelopes.len() == 0 {
        state
    } else {
        applied(applied_all(state, envelopes.drop_last()), envelopes.last())
    }
}

impl Projection {
    /// A projection that holds nothing and has seen nothing.
    pub fn new() -> (projection: Self)
        ensures
            projection@.records == Map::<u128, MessageView>::empty(),
            projection@.seen == Set::<DedupKey>::empty(),
    {
        let projection = Projection { records: HashMap::new(), seen: Vec::new() };
        projection
    }

    /// Whether an envelope with this key has been applied.
    pub fn has_seen(&self, key: &DedupKey) -> (seen: bool)
        ensures
            seen == self@.seen.contains(*key),
    {
        let mut i: usize = 0;
        while i < self.seen.len()
            invariant
                i <= self.seen.len(),
                forall|j: int| 0 <= j < i ==> self.seen@[j] != *key,
            decreases self.seen.len() - i,
        {
            if self.seen[i].matches(key) {
                return true;
            }
            i += 1;
        }
        false
    }

    /// Delivers one envelope. Returns whether it was applied: `false` means
    /// that its key had been seen and nothing changed.
    pub fn apply(&mut self, envelope: &EventEnvelope) -> (fresh: bool)
        ensures
            final(self)@ == applied(old(self)@, envelope@),
            fresh == !old(self)@.seen.contains(key_of(envelope@)),
    {
        let key = envelope.dedup_key();
        if self.has_seen(&key) {
            return false;
        }
        match &envelope.data {
            Some(snapshot) => {
                match envelope.action {
                    Action::Delete => {
                        self.records.remove(&snapshot.message_id);
                    },
                    _ => {
                        self.records.insert(snapshot.message_id, snapshot.clone());
                    },
                }
            },
            None => {},
        }
        self.seen.push(key);
        proof {
            assert(self@.seen =~= old(self)@.seen.insert(key)) by {
                vstd::seq_lib::lemma_seq_contains_after_push(old(self).seen@, key, key);
                assert forall|k: DedupKey| #[trigger]
                    self.seen@.to_set().contains(k) == old(self).seen@.to_set().insert(
                        key,
                    ).contains(k) by {
                    vstd::seq_lib::lemma_seq_contains_after_push(old(self).seen@, key, k);
                }
            }
            assert(self@.records =~= effect(old(self)@.records, envelope@));
        }
        true
    }

    /// The snapshot that is held for a record, if there is one.
    pub fn record(&self, record_id: u128) -> (found: Option<Message>)
        ensures
            view_of(found) == (if self@.records.contains_key(record_id) {
                Some(self@.records[record_id])
            } else {
                None
            }),
    {
        match self.records.get(&record_id) {
            Some(snapshot) => Some(snapshot.clone()),
            None => None,
        }
    }

    /// The number of records that are held.
    pub fn record_count(&self) -> (count: usize)
        ensures
            count == self@.records.len(),
    {
        proof {
            assert(self@.records.dom() =~= self.records@.dom());
        }
        self.records.len()
    }
}

/// An envelope that is delivered twice in a row leaves the projection as one
/// delivery left it.
pub proof fn law_apply_is_idempotent(state: ProjectionView, envelope: EnvelopeView)
    ensures
        applied(applied(state, envelope), envelope) == applied(state, envelope),
{
}

/// The side effect itself is idempotent: of two envelopes that carry the same
/// action and the same snapshot, whatever their log positions, the second
/// changes nothing in a table that holds the effect of the first.
pub proof fn law_effect_is_idempotent(
    records: Map<u128, MessageView>,
    first: EnvelopeView,
    second: EnvelopeView,
)
    requires
        first.action == second.action,
        first.data == second.data,
    ensures
        effect(effect(records, first), second) == effect(records, first),
{
}

/// Once an envelope has been applied, a second one with the same action and
/// the same snapshot leaves the table as it is, whether it is recognised by
/// its key or applied again.
pub proof fn law_same_snapshot_same_records(
    state: ProjectionView,
    first: EnvelopeView,
    second: EnvelopeView,
)
    requires
        !state.seen.contains(key_of(first)),
        first.action == second.action,
        first.data == second.data,
    ensures
        applied(applied(state, first), second).records == applied(state, first).records,
{
    law_effect_is_idempotent(state.records, first, second);
}

/// The keys that have been seen are never forgotten.
pub proof fn law_seen_is_kept(state: ProjectionView, envelopes: Seq<EnvelopeView>, key: DedupKey)
    requires
        state.seen.contains(key),
    ensures
        applied_all(state, envelopes).seen.contains(key),
    decreases envelopes.len(),
{
    if envelopes.len() > 0 {
        law_seen_is_kept(state, envelopes.drop_last(), key);
    }
}

/// An envelope that arrives a second time, whatever was delivered in
/// between, changes nothing: it has one net effect.
pub proof fn law_duplicate_changes_nothing(
    state: ProjectionView,
    envelope: EnvelopeView,
    between: Seq<EnvelopeView>,
)
    ensures
        applied(applied_all(applied(state, envelope), between), envelope) == applied_all(
            applied(state, envelope),
            between,
        ),
{
    law_seen_is_kept(applied(state, envelope), between, key_of(envelope));
}

} // verus!
