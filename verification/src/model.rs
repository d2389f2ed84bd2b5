//! The data that travels between store, relay and bus.

use vstd::prelude::*;

verus! {

/// What an envelope tells its reader to do with a record.
#[derive(Clone, Copy, Debug, PartialEq, Eq, Structural)]
pub enum Action {
    Create,
    Update,
    Delete,
}

/// The change type that the mutation log gives for an entry.
#[derive(Clone, Copy, Debug, PartialEq, Eq, Structural)]
pub enum ChangeKind {
    Insert,
    Update,
    Delete,
}

/// The field values of a record, without its identifier.
#[derive(Debug, PartialEq, Eq)]
pub struct MessageFields {
    pub name: String,
    pub message: String,
}

/// A [`MessageFields`] as plain text values.
pub struct MessageFieldsView {
    pub name: Seq<char>,
    pub message: Seq<char>,
}

impl View for MessageFields {
    type V = MessageFieldsView;

    open spec fn view(&self) -> MessageFieldsView {
        MessageFieldsView { name: self.name@, message: self.message@ }
    }
}

impl Clone for MessageFields {
    fn clone(&self) -> (copy: Self)
        ensures
            copy == *self,
    {
        MessageFields { name: self.name.clone(), message: self.message.clone() }
    }
}

/// A snapshot of one record: its identifier and its field values.
#[derive(Debug, PartialEq, Eq)]
pub struct Message {
    pub message_id: u128,
    pub name: String,
    pub message: String,
}

/// A [`Message`] as plain values.
pub struct MessageView {
    pub message_id: u128,
    pub name: Seq<char>,
    pub message: Seq<char>,
}

impl View for Message {
    type V = MessageView;

    open spec fn view(&self) -> MessageView {
        MessageView { message_id: self.message_id, name: self.name@, message: self.message@ }
    }
}

impl Clone for Message {
    fn clone(&self) -> (copy: Self)
        ensures
            copy == *self,
    {
        Message {
            message_id: self.message_id,
            name: self.name.clone(),
            message: self.message.clone(),
        }
    }
}

/// The view of an optional value: the view of what it holds.
pub open spec fn view_of<T: View>(value: Option<T>) -> Option<T::V> {
    match value {
        Some(inner) => Some(inner@),
        None => None,
    }
}

/// The snapshot of record `record_id` with the field values `fields`.
pub open spec fn snapshot_of(record_id: u128, fields: MessageFieldsView) -> MessageView {
    MessageView { message_id: record_id, name: fields.name, message: fields.message }
}

impl Message {
    /// The snapshot of record `record_id` with the given field values.
    pub fn from_fields(record_id: u128, fields: &MessageFields) -> (snapshot: Self)
        ensures
            snapshot@ == snapshot_of(record_id, fields@),
    {
        Message {
            message_id: record_id,
            name: fields.name.clone(),
            message: fields.message.clone(),
        }
    }
}

/// One entry of the mutation log.
///
/// `position` is the token that the log gave the entry when it was committed.
/// Within one log the positions rise strictly in commit order.
#[derive(Debug, PartialEq, Eq)]
pub struct MutationRecord {
    pub record_id: u128,
    pub kind: ChangeKind,
    pub fields: Option<MessageFields>,
    pub position: u64,
}

/// A [`MutationRecord`] as plain values.
pub struct MutationView {
    pub record_id: u128,
    pub kind: ChangeKind,
    pub fields: Option<MessageFieldsView>,
    pub position: u64,
}

impl View for MutationRecord {
    type V = MutationView;

    open spec fn view(&self) -> MutationView {
        MutationView {
            record_id: self.record_id,
            kind: self.kind,
            fields: view_of(self.fields),
            position: self.position,
        }
    }
}

impl Clone for MutationRecord {
    fn clone(&self) -> (copy: Self)
        ensures
            copy == *self,
    {
        let fields = match &self.fields {
            Some(fields) => Some(fields.clone()),
            None => None,
        };
        MutationRecord {
            record_id: self.record_id,
            kind: self.kind,
            fields,
            position: self.position,
        }
    }
}

/// The unit that is published to the bus.
///
/// `source_position` is the log position of the mutation that the envelope
/// stands for, or `None` where the envelope was written beside a direct write.
#[derive(Debug, PartialEq, Eq)]
pub struct EventEnvelope {
    pub action: Action,
    pub data: Option<Message>,
    pub source_position: Option<u64>,
}

/// An [`EventEnvelope`] as plain values.
pub struct EnvelopeView {
    pub action: Action,
    pub data: Option<MessageView>,
    pub source_position: Option<u64>,
}

impl View for EventEnvelope {
    type V = EnvelopeView;

    open spec fn view(&self) -> EnvelopeView {
        EnvelopeView {
            action: self.action,
            data: view_of(self.data),
            source_position: self.source_position,
        }
    }
}

/// A command as it arrives on the inbound topic: an action and an optional
/// snapshot, without a log position.
#[derive(Debug, PartialEq, Eq)]
pub struct KafkaMessage {
    pub action: Action,
    pub data: Option<Message>,
}

/// A [`KafkaMessage`] as plain values.
pub struct KafkaMessageView {
    pub action: Action,
    pub data: Option<MessageView>,
}

impl View for KafkaMessage {
    type V = KafkaMessageView;

    open spec fn view(&self) -> KafkaMessageView {
        KafkaMessageView { action: self.action, data: view_of(self.data) }
    }
}

/// The tuple by which a consumer recognises a second delivery.
#[derive(Clone, Copy, Debug, PartialEq, Eq)]
pub struct DedupKey {
    pub record_id: Option<u128>,
    pub action: Action,
    pub source_position: Option<u64>,
}

/// The change type behind an operation code of the store's change log: 1 is
/// an update, 2 an insert, 3 the delete of a row and 4 that of a partition.
/// The other codes mark images and range deletes, which are no mutation of
/// one record.
pub open spec fn kind_of_operation(code: i8) -> Option<ChangeKind> {
    if code == 1 {
        Some(ChangeKind::Update)
    } else if code == 2 {
        Some(ChangeKind::Insert)
    } else if code == 3 || code == 4 {
        Some(ChangeKind::Delete)
    } else {
        None
    }
}

/// The field values that a row of the change log gives: none for a delete,
/// and none where a column is missing.
pub open spec fn fields_of_row(
    kind: ChangeKind,
    name: Option<Seq<char>>,
    message: Option<Seq<char>>,
) -> Option<MessageFieldsView> {
    match (kind, name, message) {
        (ChangeKind::Delete, _, _) => None,
        (_, Some(name), Some(message)) => Some(MessageFieldsView { name, message }),
        _ => None,
    }
}

/// The log entry that a row of the change log stands for, if it stands for
/// one.
pub open spec fn record_of_row(
    record_id: u128,
    code: i8,
    name: Option<Seq<char>>,
    message: Option<Seq<char>>,
    position: u64,
) -> Option<MutationView> {
    match kind_of_operation(code) {
        Some(kind) => Some(
            MutationView { record_id, kind, fields: fields_of_row(kind, name, message), position },
        ),
        None => None,
    }
}

/// The action that stands for a change type.
pub open spec fn action_of(kind: ChangeKind) -> Action {
    match kind {
        ChangeKind::Insert => Action::Create,
        ChangeKind::Update => Action::Update,
        ChangeKind::Delete => Action::Delete,
    }
}

/// The envelope that the poller publishes for a log entry: the action of its
/// change type, a snapshot where the entry has fields, and its position.
pub open spec fn envelope_of(record: MutationView) -> EnvelopeView {
    EnvelopeView {
        action: action_of(record.kind),
        data: match record.fields {
            Some(fields) => Some(snapshot_of(record.record_id, fields)),
            None => None,
        },
        source_position: Some(record.position),
    }
}

/// The envelope that is written beside a direct write: no log position.
pub open spec fn direct_envelope(action: Action, data: Option<MessageView>) -> EnvelopeView {
    EnvelopeView { action, data, source_position: None }
}

/// The dedup key of an envelope: the record of its snapshot if it has one, its
/// action and its log position if it has one.
pub open spec fn key_of(envelope: EnvelopeView) -> DedupKey {
    DedupKey {
        record_id: match envelope.data {
            Some(snapshot) => Some(snapshot.message_id),
            None => None,
        },
        action: envelope.action,
        source_position: envelope.source_position,
    }
}

impl Action {
    /// The action that stands for a change type of the log.
    pub fn from_change(kind: ChangeKind) -> (action: Action)
        ensures
            action == action_of(kind),
    {
        match kind {
            ChangeKind::Insert => Action::Create,
            ChangeKind::Update => Action::Update,
            ChangeKind::Delete => Action::Delete,
        }
    }
}

impl ChangeKind {
    /// The change type behind an operation code of the store's change log.
    pub fn from_operation(code: i8) -> (kind: Option<ChangeKind>)
        ensures
            kind == kind_of_operation(code),
    {
        if code == 1 {
            Some(ChangeKind::Update)
        } else if code == 2 {
            Some(ChangeKind::Insert)
        } else if code == 3 || code == 4 {
            Some(ChangeKind::Delete)
        } else {
            None
        }
    }
}

impl MutationRecord {
    /// The log entry for a row of the store's change log, or `None` where the
    /// row's operation is no mutation of one record.
    pub fn from_row(
        record_id: u128,
        code: i8,
        name: Option<String>,
        message: Option<String>,
        position: u64,
    ) -> (record: Option<Self>)
        ensures
            view_of(record) == record_of_row(
                record_id,
                code,
                view_of(name),
                view_of(message),
                position,
            ),
    {
        match ChangeKind::from_operation(code) {
            Some(kind) => {
                let fields = match (kind, name, message) {
                    (ChangeKind::Delete, _, _) => None,
                    (_, Some(name), Some(message)) => Some(MessageFields { name, message }),
                    _ => None,
                };
                Some(MutationRecord { record_id, kind, fields, position })
            },
            None => None,
        }
    }
}

impl DedupKey {
    /// Whether two keys name the same delivery.
    pub fn matches(&self, other: &DedupKey) -> (same: bool)
        ensures
            same == (*self == *other),
    {
        let same_record = match (self.record_id, other.record_id) {
            (Some(a), Some(b)) => a == b,
            (None, None) => true,
            _ => false,
        };
        let same_action = match (self.action, other.action) {
            (Action::Create, Action::Create) => true,
            (Action::Update, Action::Update) => true,
            (Action::Delete, Action::Delete) => true,
            _ => false,
        };
        let same_position = match (self.source_position, other.source_position) {
            (Some(a), Some(b)) => a == b,
            (None, None) => true,
            _ => false,
        };
        same_record && same_action && same_position
    }
}

impl EventEnvelope {
    /// The envelope for a log entry.
    pub fn from_mutation(record: &MutationRecord) -> (envelope: Self)
        ensures
            envelope@ == envelope_of(record@),
    {
        let data = match &record.fields {
            Some(fields) => Some(Message::from_fields(record.record_id, fields)),
            None => None,
        };
        EventEnvelope {
            action: Action::from_change(record.kind),
            data,
            source_position: Some(record.position),
        }
    }

    /// The envelope for a write that was made directly, not read from the log.
    pub fn direct(action: Action, data: Option<Message>) -> (envelope: Self)
        ensures
            envelope@ == direct_envelope(action, view_of(data)),
    {
        EventEnvelope { action, data, source_position: None }
    }

    /// The key by which a second delivery of this envelope is recognised.
    pub fn dedup_key(&self) -> (key: DedupKey)
        ensures
            key == key_of(self@),
    {
        let record_id = match &self.data {
            Some(snapshot) => Some(snapshot.message_id),
            None => None,
        };
        DedupKey { record_id, action: self.action, source_position: self.source_position }
    }
}

impl Clone for EventEnvelope {
    fn clone(&self) -> (copy: Self)
        ensures
            copy == *self,
    {
        let data = match &self.data {
            Some(snapshot) => Some(snapshot.clone()),
            None => None,
        };
        EventEnvelope { action: self.action, data, source_position: self.source_position }
    }
}

impl KafkaMessage {
    /// The envelope that this command stands for: it has no log position.
    pub fn into_envelope(self) -> (envelope: EventEnvelope)
        ensures
            envelope@ == direct_envelope(self@.action, self@.data),
    {
        EventEnvelope { action: self.action, data: self.data, source_position: None }
    }
}

} // verus!
