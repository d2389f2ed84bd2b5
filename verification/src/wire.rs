//! The wire form of an envelope: a JSON object with the members `action`,
//! `data` and `sourcePosition`.
//!
//! ```text
//! { "action": "Create" | "Update" | "Delete",
//!   "data": { "recordId": <uuid>, "name": <text>, "message": <text> } | null,
//!   "sourcePosition": <number> | null }
//! ```
//!
//! A command on the inbound topic has the members `action` and `data` alone,
//! and its snapshot names the record under `message_id`.

use vstd::prelude::*;
use vstd::string::StringExecFns;
use crate::json::{
    format_uuid, is_null, json_document, json_is_null, json_member, json_number, json_string,
    json_text, member, number_of, parse_document, parse_uuid, quote, text_of, uuid_text,
    uuid_value,
};
use crate::model::{
    view_of, Action, EnvelopeView, EventEnvelope, KafkaMessage, KafkaMessageView, Message,
    MessageView,
};

verus! {

/// Why a payload was not read as an envelope.
#[derive(Clone, Copy, Debug, PartialEq, Eq, Structural)]
pub enum DecodeError {
    /// The payload is not a JSON document.
    Malformed,
    /// The member `action` is missing or is none of the three action names.
    Action,
    /// The member `data` is neither null nor a snapshot.
    Data,
    /// The member `sourcePosition` is neither null nor a position.
    Position,
}

/// The name of an action on the wire.
pub open spec fn action_word(action: Action) -> Seq<char> {
    match action {
        Action::Create => "Create"@,
        Action::Update => "Update"@,
        Action::Delete => "Delete"@,
    }
}

/// The action that a name on the wire stands for.
pub open spec fn action_of_word(word: Seq<char>) -> Option<Action> {
    if word == "Create"@ {
        Some(Action::Create)
    } else if word == "Update"@ {
        Some(Action::Update)
    } else if word == "Delete"@ {
        Some(Action::Delete)
    } else {
        None
    }
}

/// The decimal digit for a number below ten.
pub open spec fn digit(value: nat) -> char {
    if value == 0 {
        '0'
    } else if value == 1 {
        '1'
    } else if value == 2 {
        '2'
    } else if value == 3 {
        '3'
    } else if value == 4 {
        '4'
    } else if value == 5 {
        '5'
    } else if value == 6 {
        '6'
    } else if value == 7 {
        '7'
    } else if value == 8 {
        '8'
    } else {
        '9'
    }
}

/// A number in decimal digits, without leading zeros.
pub open spec fn decimal(value: nat) -> Seq<char>
    decreases value,
{
    if value < 10 {
        seq![digit(value)]
    } else {
        decimal(value / 10) + seq![digit(value % 10)]
    }
}

/// The JSON text of a snapshot, or `None` where one of its texts cannot be
/// written as a JSON string.
pub open spec fn snapshot_text(snapshot: MessageView) -> Option<Seq<char>> {
    match json_string(uuid_text(snapshot.message_id)) {
        Some(id) => match json_string(snapshot.name) {
            Some(name) => match json_string(snapshot.message) {
                Some(message) => Some(
                    "{\"recordId\":"@ + id + ",\"name\":"@ + name + ",\"message\":"@ + message
                        + "}"@,
                ),
                None => None,
            },
            None => None,
        },
        None => None,
    }
}

/// The JSON text of an optional snapshot.
pub open spec fn data_text(data: Option<MessageView>) -> Option<Seq<char>> {
    match data {
        Some(snapshot) => snapshot_text(snapshot),
        None => Some("null"@),
    }
}

/// The JSON text of an optional log position.
pub open spec fn position_text(position: Option<u64>) -> Seq<char> {
    match position {
        Some(position) => decimal(position as nat),
        None => "null"@,
    }
}

/// The wire form of an envelope, or `None` where it has none.
pub open spec fn wire_text(envelope: EnvelopeView) -> Option<Seq<char>> {
    match data_text(envelope.data) {
        Some(data) => Some(
            "{\"action\":\""@ + action_word(envelope.action) + "\",\"data\":"@ + data
                + ",\"sourcePosition\":"@ + position_text(envelope.source_position) + "}"@,
        ),
        None => None,
    }
}

/// The text of the member `key` of a JSON object, where it is a string.
pub open spec fn text_member(object: serde_json::Value, key: Seq<char>) -> Option<Seq<char>> {
    match json_member(object, key) {
        Some(value) => json_text(value),
        None => None,
    }
}

/// The snapshot that the given members make, if all of them are there.
pub open spec fn snapshot_of_parts(
    id: Option<u128>,
    name: Option<Seq<char>>,
    message: Option<Seq<char>>,
) -> Option<MessageView> {
    match (id, name, message) {
        (Some(message_id), Some(name), Some(message)) => Some(
            MessageView { message_id, name, message },
        ),
        _ => None,
    }
}

/// The record that a JSON object names under `id_key`.
pub open spec fn decoded_id(object: serde_json::Value, id_key: Seq<char>) -> Option<u128> {
    match text_member(object, id_key) {
        Some(text) => uuid_value(text),
        None => None,
    }
}

/// The snapshot that a JSON object holds, with its record under `id_key`.
pub open spec fn decoded_snapshot(object: serde_json::Value, id_key: Seq<char>) -> Option<
    MessageView,
> {
    snapshot_of_parts(
        decoded_id(object, id_key),
        text_member(object, "name"@),
        text_member(object, "message"@),
    )
}

/// The action that a document names.
pub open spec fn decoded_action(document: serde_json::Value) -> Option<Action> {
    match text_member(document, "action"@) {
        Some(word) => action_of_word(word),
        None => None,
    }
}

/// The member `data` of a document: nothing where it is missing or null, a
/// snapshot where it holds one, an error otherwise.
pub open spec fn decoded_data(document: serde_json::Value, id_key: Seq<char>) -> Result<
    Option<MessageView>,
    DecodeError,
> {
    match json_member(document, "data"@) {
        Some(value) => if json_is_null(value) {
            Ok(None)
        } else {
            match decoded_snapshot(value, id_key) {
                Some(snapshot) => Ok(Some(snapshot)),
                None => Err(DecodeError::Data),
            }
        },
        None => Ok(None),
    }
}

/// The member `sourcePosition` of a document: nothing where it is missing or
/// null, a position where it holds one, an error otherwise.
pub open spec fn decoded_position(document: serde_json::Value) -> Result<Option<u64>, DecodeError> {
    match json_member(document, "sourcePosition"@) {
        Some(value) => if json_is_null(value) {
            Ok(None)
        } else {
            match json_number(value) {
                Some(position) => Ok(Some(position)),
                None => Err(DecodeError::Position),
            }
        },
        None => Ok(None),
    }
}

/// The envelope that the three members make. The first of them that is in
/// error, in the order action, data, position, gives the error.
pub open spec fn envelope_of_parts(
    action: Option<Action>,
    data: Result<Option<MessageView>, DecodeError>,
    position: Result<Option<u64>, DecodeError>,
) -> Result<EnvelopeView, DecodeError> {
    match action {
        Some(action) => match data {
            Ok(data) => match position {
                Ok(source_position) => Ok(EnvelopeView { action, data, source_position }),
                Err(error) => Err(error),
            },
            Err(error) => Err(error),
        },
        None => Err(DecodeError::Action),
    }
}

/// The envelope that a payload holds.
pub open spec fn decoded(payload: Seq<u8>) -> Result<EnvelopeView, DecodeError> {
    match json_document(payload) {
        Some(document) => envelope_of_parts(
            decoded_action(document),
            decoded_data(document, "recordId"@),
            decoded_position(document),
        ),
        None => Err(DecodeError::Malformed),
    }
}

/// The command that a payload of the inbound topic holds.
pub open spec fn decoded_command(payload: Seq<u8>) -> Result<KafkaMessageView, DecodeError> {
    match json_document(payload) {
        Some(document) => match envelope_of_parts(
            decoded_action(document),
            decoded_data(document, "message_id"@),
            Ok(None),
        ) {
            Ok(envelope) => Ok(KafkaMessageView { action: envelope.action, data: envelope.data }),
            Err(error) => Err(error),
        },
        None => Err(DecodeError::Malformed),
    }
}

/// The view of a decoding result.
pub open spec fn result_view<T: View>(result: Result<T, DecodeError>) -> Result<T::V, DecodeError> {
    match result {
        Ok(value) => Ok(value@),
        Err(error) => Err(error),
    }
}

/// The name of an action on the wire.
pub fn action_name(action: Action) -> (name: &'static str)
    ensures
        name@ == action_word(action),
{
    match action {
        Action::Create => "Create",
        Action::Update => "Update",
        Action::Delete => "Delete",
    }
}

/// The action that a name on the wire stands for, if it is one of the three.
pub fn parse_action(word: &str) -> (action: Option<Action>)
    ensures
        action == action_of_word(word@),
{
    let word = word.to_owned();
    if word == "Create".to_owned() {
        Some(Action::Create)
    } else if word == "Update".to_owned() {
        Some(Action::Update)
    } else if word == "Delete".to_owned() {
        Some(Action::Delete)
    } else {
        None
    }
}

fn digit_text(value: u64) -> (text: &'static str)
    requires
        value < 10,
    ensures
        text@ == seq![digit(value as nat)],
{
    proof {
        reveal_strlit("0");
        reveal_strlit("1");
        reveal_strlit("2");
        reveal_strlit("3");
        reveal_strlit("4");
        reveal_strlit("5");
        reveal_strlit("6");
        reveal_strlit("7");
        reveal_strlit("8");
        reveal_strlit("9");
    }
    let text = if value == 0 {
        "0"
    } else if value == 1 {
        "1"
    } else if value == 2 {
        "2"
    } else if value == 3 {
        "3"
    } else if value == 4 {
        "4"
    } else if value == 5 {
        "5"
    } else if value == 6 {
        "6"
    } else if value == 7 {
        "7"
    } else if value == 8 {
        "8"
    } else {
        "9"
    };
    text
}

/// A number in decimal digits.
pub fn decimal_text(value: u64) -> (text: String)
    ensures
        text@ == decimal(value as nat),
{
    let mut text = digit_text(value % 10).to_owned();
    let mut rest = value / 10;
    while rest > 0
        invariant
            rest > 0 ==> decimal(value as nat) == decimal(rest as nat) + text@,
            rest == 0 ==> decimal(value as nat) == text@,
        decreases rest,
    {
        let head = digit_text(rest % 10).to_owned();
        text = head.concat(text.as_str());
        rest = rest / 10;
    }
    text
}

fn encode_snapshot(snapshot: &Message) -> (text: Option<String>)
    ensures
        view_of(text) == snapshot_text(snapshot@),
{
    let plain = format_uuid(snapshot.message_id);
    let id = match quote(plain.as_str()) {
        Ok(id) => id,
        Err(_) => {
            return None;
        },
    };
    let name = match quote(snapshot.name.as_str()) {
        Ok(name) => name,
        Err(_) => {
            return None;
        },
    };
    let message = match quote(snapshot.message.as_str()) {
        Ok(message) => message,
        Err(_) => {
            return None;
        },
    };
    let mut text = "{\"recordId\":".to_owned();
    text.append(id.as_str());
    text.append(",\"name\":");
    text.append(name.as_str());
    text.append(",\"message\":");
    text.append(message.as_str());
    text.append("}");
    Some(text)
}

/// Writes an envelope in its wire form. Returns `None` exactly where one of
/// the snapshot's texts cannot be written as a JSON string.
pub fn encode(envelope: &EventEnvelope) -> (text: Option<String>)
    ensures
        view_of(text) == wire_text(envelope@),
{
    let data = match &envelope.data {
        Some(snapshot) => match encode_snapshot(snapshot) {
            Some(data) => data,
            None => {
                return None;
            },
        },
        None => "null".to_owned(),
    };
    let position = match envelope.source_position {
        Some(position) => decimal_text(position),
        None => "null".to_owned(),
    };
    let mut text = "{\"action\":\"".to_owned();
    text.append(action_name(envelope.action));
    text.append("\",\"data\":");
    text.append(data.as_str());
    text.append(",\"sourcePosition\":");
    text.append(position.as_str());
    text.append("}");
    Some(text)
}

/// The snapshot that the given members make, if all of them are there.
pub fn snapshot_from_parts(id: Option<u128>, name: Option<&str>, message: Option<&str>) -> (snapshot:
    Option<Message>)
    ensures
        view_of(snapshot) == snapshot_of_parts(
            id,
            match name {
                Some(name) => Some(name@),
                None => None,
            },
            match message {
                Some(message) => Some(message@),
                None => None,
            },
        ),
{
    match (id, name, message) {
        (Some(message_id), Some(name), Some(message)) => Some(
            Message { message_id, name: name.to_owned(), message: message.to_owned() },
        ),
        _ => None,
    }
}

/// The envelope that the three members make. The first of them that is in
/// error, in the order action, data, position, gives the error.
pub fn envelope_from_parts(
    action: Option<Action>,
    data: Result<Option<Message>, DecodeError>,
    position: Result<Option<u64>, DecodeError>,
) -> (envelope: Result<EventEnvelope, DecodeError>)
    ensures
        result_view(envelope) == envelope_of_parts(
            action,
            match data {
                Ok(data) => Ok(view_of(data)),
                Err(error) => Err(error),
            },
            position,
        ),
{
    match action {
        Some(action) => match data {
            Ok(data) => match position {
                Ok(source_position) => Ok(EventEnvelope { action, data, source_position }),
                Err(error) => Err(error),
            },
            Err(error) => Err(error),
        },
        None => Err(DecodeError::Action),
    }
}

fn read_text<'a>(object: &'a serde_json::Value, key: &str) -> (text: Option<&'a str>)
    ensures
        (match text {
            Some(text) => Some(text@),
            None => None,
        }) == text_member(*object, key@),
{
    match member(object, key) {
        Some(value) => text_of(value),
        None => None,
    }
}

fn read_action(document: &serde_json::Value) -> (action: Option<Action>)
    ensures
        action == decoded_action(*document),
{
    match read_text(document, "action") {
        Some(word) => parse_action(word),
        None => None,
    }
}

fn read_data(document: &serde_json::Value, id_key: &str) -> (data: Result<
    Option<Message>,
    DecodeError,
>)
    ensures
        (match data {
            Ok(data) => Ok(view_of(data)),
            Err(error) => Err(error),
        }) == decoded_data(*document, id_key@),
{
    match member(document, "data") {
        Some(value) => {
            if is_null(value) {
                Ok(None)
            } else {
                let id = match read_text(value, id_key) {
                    Some(text) => match parse_uuid(text) {
                        Ok(id) => Some(id),
                        Err(_) => None,
                    },
                    None => None,
                };
                let name = read_text(value, "name");
                let message = read_text(value, "message");
                match snapshot_from_parts(id, name, message) {
                    Some(snapshot) => Ok(Some(snapshot)),
                    None => Err(DecodeError::Data),
                }
            }
        },
        None => Ok(None),
    }
}

fn read_position(document: &serde_json::Value) -> (position: Result<Option<u64>, DecodeError>)
    ensures
        position == decoded_position(*document),
{
    match member(document, "sourcePosition") {
        Some(value) => {
            if is_null(value) {
                Ok(None)
            } else {
                match number_of(value) {
                    Some(position) => Ok(Some(position)),
                    None => Err(DecodeError::Position),
                }
            }
        },
        None => Ok(None),
    }
}

/// Reads an envelope from a payload.
pub fn decode(payload: &[u8]) -> (envelope: Result<EventEnvelope, DecodeError>)
    ensures
        result_view(envelope) == decoded(payload@),
{
    match parse_document(payload) {
        Ok(document) => envelope_from_parts(
            read_action(&document),
            read_data(&document, "recordId"),
            read_position(&document),
        ),
        Err(_) => Err(DecodeError::Malformed),
    }
}

/// Reads a command of the inbound topic from a payload.
pub fn decode_command(payload: &[u8]) -> (command: Result<KafkaMessage, DecodeError>)
    ensures
        result_view(command) == decoded_command(payload@),
{
    match parse_document(payload) {
        Ok(document) => match envelope_from_parts(
            read_action(&document),
            read_data(&document, "message_id"),
            Ok(None),
        ) {
            Ok(envelope) => Ok(KafkaMessage { action: envelope.action, data: envelope.data }),
            Err(error) => Err(error),
        },
        Err(_) => Err(DecodeError::Malformed),
    }
}

} // verus!
