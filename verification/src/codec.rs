//! The record codec: the typed records of the three protocol families, their
//! decoding from a listing payload and their encoding for submission.

use crate::instant::{instant_of, value_instant};
use crate::json::{
    contents, field_of, json_content, json_parse, lemma_entry_at, parse_value, value_field,
    value_items, value_text, value_unsigned, JsonModel, JsonNumber,
};
use crate::registry::Protocol;
use crate::text::{
    decimal_digits, format_decimal, is_numeral, lemma_decimal_round_trip, numeral_value,
    parse_numeral, same_text, utf8_text,
};
use vstd::prelude::*;
use vstd::string::*;

verus! {

/// Whether a node is read from, written to, or both.
#[derive(Clone, Copy, Debug, PartialEq, Eq, Structural)]
pub enum RwDirection {
    Read,
    Write,
    ReadWrite,
}

/// Why a payload could not be decoded.
#[derive(Clone, Copy, Debug, PartialEq, Eq, Structural)]
pub enum DecodeError {
    /// The payload is no JSON text, or not of the expected shape.
    SchemaMismatch,
}

/// A record of one of the three protocol families.
#[derive(Clone, Debug, PartialEq, Eq)]
pub enum NodeRecord {
    /// A key/value entry that the backend manages.
    Generic {
        uid: String,
        name: String,
        value: String,
        rw_direction: RwDirection,
        /// The instant of the last update in milliseconds since the Unix
        /// epoch; `None` for a record that the backend has not stored yet.
        last_update: Option<i64>,
    },
    /// Binds the generic record `locked_to_uid` to a Modbus-TCP register.
    ModbusMapping {
        locked_to_uid: String,
        ip: String,
        port: u64,
        register: u64,
        rw_direction: RwDirection,
    },
    /// Binds the generic record `locked_to_uid` to an MQTT topic.
    MqttMapping {
        locked_to_uid: String,
        ip: String,
        topic: String,
        topic_modifier: String,
        rw_direction: RwDirection,
    },
}

/// A record with its texts as character sequences.
pub enum RecordModel {
    Generic {
        uid: Seq<char>,
        name: Seq<char>,
        value: Seq<char>,
        rw_direction: RwDirection,
        last_update: Option<i64>,
    },
    ModbusMapping {
        locked_to_uid: Seq<char>,
        ip: Seq<char>,
        port: u64,
        register: u64,
        rw_direction: RwDirection,
    },
    MqttMapping {
        locked_to_uid: Seq<char>,
        ip: Seq<char>,
        topic: Seq<char>,
        topic_modifier: Seq<char>,
        rw_direction: RwDirection,
    },
}

impl View for NodeRecord {
    type V = RecordModel;

    open spec fn view(&self) -> RecordModel {
        match *self {
            NodeRecord::Generic { uid, name, value, rw_direction, last_update } => {
                RecordModel::Generic {
                    uid: uid@,
                    name: name@,
                    value: value@,
                    rw_direction,
                    last_update,
                }
            },
            NodeRecord::ModbusMapping { locked_to_uid, ip, port, register, rw_direction } => {
                RecordModel::ModbusMapping {
                    locked_to_uid: locked_to_uid@,
                    ip: ip@,
                    port,
                    register,
                    rw_direction,
                }
            },
            NodeRecord::MqttMapping { locked_to_uid, ip, topic, topic_modifier, rw_direction } => {
                RecordModel::MqttMapping {
                    locked_to_uid: locked_to_uid@,
                    ip: ip@,
                    topic: topic@,
                    topic_modifier: topic_modifier@,
                    rw_direction,
                }
            },
        }
    }
}

impl DeepView for NodeRecord {
    type V = RecordModel;

    open spec fn deep_view(&self) -> RecordModel {
        self@
    }
}

/// The protocol family of a record.
pub open spec fn protocol_of(r: RecordModel) -> Protocol {
    match r {
        RecordModel::Generic { .. } => Protocol::Rapi,
        RecordModel::ModbusMapping { .. } => Protocol::ModbusTcp,
        RecordModel::MqttMapping { .. } => Protocol::Mqtt,
    }
}

/// The identifier of the generic node that a record is, or is bound to.
pub open spec fn node_identifier(r: RecordModel) -> Seq<char> {
    match r {
        RecordModel::Generic { uid, .. } => uid,
        RecordModel::ModbusMapping { locked_to_uid, .. } => locked_to_uid,
        RecordModel::MqttMapping { locked_to_uid, .. } => locked_to_uid,
    }
}

/// The word that stands for a direction on the wire.
pub open spec fn direction_token(d: RwDirection) -> Seq<char> {
    match d {
        RwDirection::Read => "r"@,
        RwDirection::Write => "w"@,
        RwDirection::ReadWrite => "rw"@,
    }
}

/// The direction that a word stands for, if any.
pub open spec fn direction_of_token(t: Seq<char>) -> Option<RwDirection> {
    if t == "r"@ {
        Some(RwDirection::Read)
    } else if t == "w"@ {
        Some(RwDirection::Write)
    } else if t == "rw"@ {
        Some(RwDirection::ReadWrite)
    } else {
        None
    }
}

/// A text value: the characters of a JSON string.
pub open spec fn text_of(m: JsonModel) -> Option<Seq<char>> {
    match m {
        JsonModel::Text(t) => Some(t),
        _ => None,
    }
}

/// A numeric value, read tolerantly: an unsigned integer, or a string that is
/// a numeral of 64 bits. Both forms give the same number; anything else gives
/// `None`.
pub open spec fn numeric_of(m: JsonModel) -> Option<u64> {
    match m {
        JsonModel::Number(JsonNumber::Unsigned(n)) => Some(n),
        JsonModel::Text(t) => numeral_value(t),
        _ => None,
    }
}

/// A direction value: a JSON string that is one of the three direction words.
pub open spec fn direction_of(m: JsonModel) -> Option<RwDirection> {
    match m {
        JsonModel::Text(t) => direction_of_token(t),
        _ => None,
    }
}

/// The text that `m` holds under `key`: `None` where the field is missing
/// or no text value.
pub open spec fn text_field(m: JsonModel, key: Seq<char>) -> Option<Seq<char>> {
    match field_of(m, key) {
        Some(x) => text_of(x),
        None => None,
    }
}

/// The number that `m` holds under `key`: `None` where the field is missing
/// or no numeric value.
pub open spec fn numeric_field(m: JsonModel, key: Seq<char>) -> Option<u64> {
    match field_of(m, key) {
        Some(x) => numeric_of(x),
        None => None,
    }
}

/// The direction that `m` holds under `key`: `None` where the field is
/// missing or no direction value.
pub open spec fn direction_field(m: JsonModel, key: Seq<char>) -> Option<RwDirection> {
    match field_of(m, key) {
        Some(x) => direction_of(x),
        None => None,
    }
}

/// The instant that `m` holds under `key`: `None` where the field is missing
/// or no instant.
pub open spec fn instant_field(m: JsonModel, key: Seq<char>) -> Option<i64> {
    match field_of(m, key) {
        Some(x) => instant_of(x),
        None => None,
    }
}

/// The kind of value that a field of a listed record holds.
#[derive(Clone, Copy, Debug, PartialEq, Eq, Structural)]
pub enum FieldKind {
    /// A JSON string.
    Text,
    /// A number, as a JSON number or as a numeral string.
    Numeric,
    /// One of the direction words `r`, `w`, `rw`.
    Direction,
    /// An instant.
    Instant,
}

/// One field of a record schema.
#[derive(Clone, Copy, Debug, PartialEq, Eq)]
pub struct FieldSchema {
    pub name: &'static str,
    pub kind: FieldKind,
}

/// The record schema of protocol `p`: the fields that every listed record of
/// the protocol holds.
pub open spec fn schema_of(p: Protocol) -> Seq<FieldSchema> {
    match p {
        Protocol::Rapi => seq![
            FieldSchema { name: "node_uid", kind: FieldKind::Text },
            FieldSchema { name: "node_name", kind: FieldKind::Text },
            FieldSchema { name: "node_val", kind: FieldKind::Text },
            FieldSchema { name: "node_rw_direction", kind: FieldKind::Direction },
            FieldSchema { name: "node_last_update", kind: FieldKind::Instant },
        ],
        Protocol::ModbusTcp => seq![
            FieldSchema { name: "mb_lock_to_uid", kind: FieldKind::Text },
            FieldSchema { name: "mb_ip", kind: FieldKind::Text },
            FieldSchema { name: "mb_port", kind: FieldKind::Numeric },
            FieldSchema { name: "mb_register", kind: FieldKind::Numeric },
            FieldSchema { name: "mb_rw", kind: FieldKind::Direction },
        ],
        Protocol::Mqtt => seq![
            FieldSchema { name: "mqtt_lock_to_uid", kind: FieldKind::Text },
            FieldSchema { name: "mqtt_ip", kind: FieldKind::Text },
            FieldSchema { name: "mqtt_topic", kind: FieldKind::Text },
            FieldSchema { name: "mqtt_topic_modif", kind: FieldKind::Text },
            FieldSchema { name: "mqtt_rw", kind: FieldKind::Direction },
        ],
    }
}

/// Whether `m` holds the field `f` with a value of its kind.
pub open spec fn field_conforms(m: JsonModel, f: FieldSchema) -> bool {
    match f.kind {
        FieldKind::Text => text_field(m, f.name@) is Some,
        FieldKind::Numeric => numeric_field(m, f.name@) is Some,
        FieldKind::Direction => direction_field(m, f.name@) is Some,
        FieldKind::Instant => instant_field(m, f.name@) is Some,
    }
}

/// Whether `m` conforms to the record schema of protocol `p`.
pub open spec fn conforms(p: Protocol, m: JsonModel) -> bool {
    forall|i: int| 0 <= i < schema_of(p).len() ==> field_conforms(m, #[trigger] schema_of(p)[i])
}

/// The generic record that an object holds: all five fields must be there,
/// each of its kind. Further fields are passed over.
pub open spec fn decode_generic_spec(m: JsonModel) -> Option<RecordModel> {
    let uid = text_field(m, "node_uid"@);
    let name = text_field(m, "node_name"@);
    let value = text_field(m, "node_val"@);
    let rw = direction_field(m, "node_rw_direction"@);
    let at = instant_field(m, "node_last_update"@);
    if uid is Some && name is Some && value is Some && rw is Some && at is Some {
        Some(
            RecordModel::Generic {
                uid: uid->0,
                name: name->0,
                value: value->0,
                rw_direction: rw->0,
                last_update: at,
            },
        )
    } else {
        None
    }
}

/// The Modbus mapping that an object holds. Port and register are numeric
/// fields.
pub open spec fn decode_modbus_spec(m: JsonModel) -> Option<RecordModel> {
    let uid = text_field(m, "mb_lock_to_uid"@);
    let ip = text_field(m, "mb_ip"@);
    let port = numeric_field(m, "mb_port"@);
    let register = numeric_field(m, "mb_register"@);
    let rw = direction_field(m, "mb_rw"@);
    if uid is Some && ip is Some && port is Some && register is Some && rw is Some {
        Some(
            RecordModel::ModbusMapping {
                locked_to_uid: uid->0,
                ip: ip->0,
                port: port->0,
                register: register->0,
                rw_direction: rw->0,
            },
        )
    } else {
        None
    }
}

/// The MQTT mapping that an object holds.
pub open spec fn decode_mqtt_spec(m: JsonModel) -> Option<RecordModel> {
    let uid = text_field(m, "mqtt_lock_to_uid"@);
    let ip = text_field(m, "mqtt_ip"@);
    let topic = text_field(m, "mqtt_topic"@);
    let modifier = text_field(m, "mqtt_topic_modif"@);
    let rw = direction_field(m, "mqtt_rw"@);
    if uid is Some && ip is Some && topic is Some && modifier is Some && rw is Some {
        Some(
            RecordModel::MqttMapping {
                locked_to_uid: uid->0,
                ip: ip->0,
                topic: topic->0,
                topic_modifier: modifier->0,
                rw_direction: rw->0,
            },
        )
    } else {
        None
    }
}

/// The record of protocol `p` that a JSON value holds, `None` where the value
/// is not of that shape.
pub open spec fn decode_record_spec(p: Protocol, m: JsonModel) -> Option<RecordModel> {
    match p {
        Protocol::Rapi => decode_generic_spec(m),
        Protocol::ModbusTcp => decode_modbus_spec(m),
        Protocol::Mqtt => decode_mqtt_spec(m),
    }
}

/// Whether every one of `items` holds a record of protocol `p`.
pub open spec fn all_records(p: Protocol, items: Seq<JsonModel>) -> bool {
    forall|i: int| 0 <= i < items.len() ==> decode_record_spec(p, #[trigger] items[i]) is Some
}

/// The records of protocol `p` that a JSON value lists: the value must be an
/// array, and each element a record.
pub open spec fn decode_list_spec(p: Protocol, m: JsonModel) -> Result<
    Seq<RecordModel>,
    DecodeError,
> {
    match m {
        JsonModel::List(items) => if all_records(p, items) {
            Ok(Seq::new(items.len(), |i: int| decode_record_spec(p, items[i])->0))
        } else {
            Err(DecodeError::SchemaMismatch)
        },
        _ => Err(DecodeError::SchemaMismatch),
    }
}

/// The records of protocol `p` that a payload lists.
pub open spec fn decode_spec(p: Protocol, payload: Seq<char>) -> Result<
    Seq<RecordModel>,
    DecodeError,
> {
    match json_parse(payload) {
        Some(m) => decode_list_spec(p, m),
        None => Err(DecodeError::SchemaMismatch),
    }
}

/// The records of protocol `p` that a payload of bytes lists: the bytes must
/// be the UTF-8 encoding of a text that lists them.
pub open spec fn decode_bytes_spec(p: Protocol, payload: Seq<u8>) -> Result<
    Seq<RecordModel>,
    DecodeError,
> {
    if vstd::utf8::valid_utf8(payload) {
        decode_spec(p, vstd::utf8::decode_utf8(payload))
    } else {
        Err(DecodeError::SchemaMismatch)
    }
}

/// The identifier that a JSON value carries as an allocation response: the
/// value must be an object with a string under `uid`.
pub open spec fn allocation_of(m: JsonModel) -> Result<Seq<char>, DecodeError> {
    match text_field(m, "uid"@) {
        Some(uid) => Ok(uid),
        None => Err(DecodeError::SchemaMismatch),
    }
}

/// The identifier that an allocation response carries.
pub open spec fn allocation_spec(body: Seq<char>) -> Result<Seq<char>, DecodeError> {
    match json_parse(body) {
        Some(m) => allocation_of(m),
        None => Err(DecodeError::SchemaMismatch),
    }
}

fn text_at(v: &serde_json::Value, key: &str) -> (r: Option<String>)
    ensures
        r.deep_view() == text_field(json_content(*v), key@),
{
    match value_field(v, key) {
        Some(x) => match value_text(x) {
            Some(s) => Some(s.to_owned()),
            None => None,
        },
        None => None,
    }
}

fn numeric_at(v: &serde_json::Value, key: &str) -> (r: Option<u64>)
    ensures
        r == numeric_field(json_content(*v), key@),
{
    match value_field(v, key) {
        Some(x) => match value_unsigned(x) {
            Some(n) => Some(n),
            None => match value_text(x) {
                Some(s) => parse_numeral(s),
                None => None,
            },
        },
        None => None,
    }
}

/// Reads a direction word: `r`, `w` or `rw`.
pub fn parse_direction(token: &str) -> (r: Option<RwDirection>)
    ensures
        r == direction_of_token(token@),
{
    if same_text(token, "r") {
        Some(RwDirection::Read)
    } else if same_text(token, "w") {
        Some(RwDirection::Write)
    } else if same_text(token, "rw") {
        Some(RwDirection::ReadWrite)
    } else {
        None
    }
}

/// The word that stands for `d` on the wire.
pub fn direction_word(d: RwDirection) -> (r: &'static str)
    ensures
        r@ == direction_token(d),
{
    match d {
        RwDirection::Read => "r",
        RwDirection::Write => "w",
        RwDirection::ReadWrite => "rw",
    }
}

fn direction_at(v: &serde_json::Value, key: &str) -> (r: Option<RwDirection>)
    ensures
        r == direction_field(json_content(*v), key@),
{
    match value_field(v, key) {
        Some(x) => match value_text(x) {
            Some(s) => parse_direction(s),
            None => None,
        },
        None => None,
    }
}

fn instant_at(v: &serde_json::Value, key: &str) -> (r: Option<i64>)
    ensures
        r == instant_field(json_content(*v), key@),
{
    match value_field(v, key) {
        Some(x) => value_instant(x),
        None => None,
    }
}

fn decode_generic(v: &serde_json::Value) -> (r: Option<NodeRecord>)
    ensures
        r.deep_view() == decode_generic_spec(json_content(*v)),
{
    let uid = text_at(v, "node_uid");
    let name = text_at(v, "node_name");
    let value = text_at(v, "node_val");
    let rw = direction_at(v, "node_rw_direction");
    let at = instant_at(v, "node_last_update");
    match (uid, name, value, rw, at) {
        (Some(uid), Some(name), Some(value), Some(rw_direction), Some(at)) => Some(
            NodeRecord::Generic { uid, name, value, rw_direction, last_update: Some(at) },
        ),
        _ => None,
    }
}

fn decode_modbus(v: &serde_json::Value) -> (r: Option<NodeRecord>)
    ensures
        r.deep_view() == decode_modbus_spec(json_content(*v)),
{
    let uid = text_at(v, "mb_lock_to_uid");
    let ip = text_at(v, "mb_ip");
    let port = numeric_at(v, "mb_port");
    let register = numeric_at(v, "mb_register");
    let rw = direction_at(v, "mb_rw");
    match (uid, ip, port, register, rw) {
        (Some(locked_to_uid), Some(ip), Some(port), Some(register), Some(rw_direction)) => Some(
            NodeRecord::ModbusMapping { locked_to_uid, ip, port, register, rw_direction },
        ),
        _ => None,
    }
}

fn decode_mqtt(v: &serde_json::Value) -> (r: Option<NodeRecord>)
    ensures
        r.deep_view() == decode_mqtt_spec(json_content(*v)),
{
    let uid = text_at(v, "mqtt_lock_to_uid");
    let ip = text_at(v, "mqtt_ip");
    let topic = text_at(v, "mqtt_topic");
    let modifier = text_at(v, "mqtt_topic_modif");
    let rw = direction_at(v, "mqtt_rw");
    match (uid, ip, topic, modifier, rw) {
        (Some(locked_to_uid), Some(ip), Some(topic), Some(topic_modifier), Some(rw_direction)) => {
            Some(NodeRecord::MqttMapping { locked_to_uid, ip, topic, topic_modifier, rw_direction })
        },
        _ => None,
    }
}

/// The record schema of protocol `p`.
pub fn schema(p: Protocol) -> (fields: Vec<FieldSchema>)
    ensures
        fields@ == schema_of(p),
{
    let mut fields: Vec<FieldSchema> = Vec::new();
    match p {
        Protocol::Rapi => {
            fields.push(FieldSchema { name: "node_uid", kind: FieldKind::Text });
            fields.push(FieldSchema { name: "node_name", kind: FieldKind::Text });
            fields.push(FieldSchema { name: "node_val", kind: FieldKind::Text });
            fields.push(FieldSchema { name: "node_rw_direction", kind: FieldKind::Direction });
            fields.push(FieldSchema { name: "node_last_update", kind: FieldKind::Instant });
        },
        Protocol::ModbusTcp => {
            fields.push(FieldSchema { name: "mb_lock_to_uid", kind: FieldKind::Text });
            fields.push(FieldSchema { name: "mb_ip", kind: FieldKind::Text });
            fields.push(FieldSchema { name: "mb_port", kind: FieldKind::Numeric });
            fields.push(FieldSchema { name: "mb_register", kind: FieldKind::Numeric });
            fields.push(FieldSchema { name: "mb_rw", kind: FieldKind::Direction });
        },
        Protocol::Mqtt => {
            fields.push(FieldSchema { name: "mqtt_lock_to_uid", kind: FieldKind::Text });
            fields.push(FieldSchema { name: "mqtt_ip", kind: FieldKind::Text });
            fields.push(FieldSchema { name: "mqtt_topic", kind: FieldKind::Text });
            fields.push(FieldSchema { name: "mqtt_topic_modif", kind: FieldKind::Text });
            fields.push(FieldSchema { name: "mqtt_rw", kind: FieldKind::Direction });
        },
    }
    assert(fields@ =~= schema_of(p));
    fields
}

/// Decodes one record of protocol `p` from a JSON value: `Some` exactly
/// where the value is an object with the protocol's fields, each of its kind.
pub fn decode_record(p: Protocol, v: &serde_json::Value) -> (r: Option<NodeRecord>)
    ensures
        r.deep_view() == decode_record_spec(p, json_content(*v)),
{
    match p {
        Protocol::Rapi => decode_generic(v),
        Protocol::ModbusTcp => decode_modbus(v),
        Protocol::Mqtt => decode_mqtt(v),
    }
}

/// Decodes the records of protocol `p` that a JSON value lists. The value
/// must be an array of records; an empty array gives an empty list, and any
/// other shape gives `SchemaMismatch`.
pub fn decode_value(p: Protocol, v: &serde_json::Value) -> (r: Result<Vec<NodeRecord>, DecodeError>)
    ensures
        match r {
            Ok(records) => decode_list_spec(p, json_content(*v)) == Ok::<
                Seq<RecordModel>,
                DecodeError,
            >(records.deep_view()),
            Err(e) => decode_list_spec(p, json_content(*v)) == Err::<Seq<RecordModel>, DecodeError>(
                e,
            ),
        },
{
    let items = match value_items(v) {
        Some(items) => items,
        None => {
            return Err(DecodeError::SchemaMismatch);
        },
    };
    let ghost models = contents(items@);
    let mut records: Vec<NodeRecord> = Vec::new();
    let mut i: usize = 0;
    while i < items.len()
        invariant
            0 <= i <= items.len(),
            models == contents(items@),
            json_content(*v) == JsonModel::List(models),
            records.len() == i,
            forall|j: int| 0 <= j < i ==> decode_record_spec(p, #[trigger] models[j]) == Some(
                records[j]@,
            ),
        decreases items.len() - i,
    {
        match decode_record(p, &items[i]) {
            Some(record) => {
                records.push(record);
            },
            None => {
                assert(decode_record_spec(p, models[i as int]) is None);
                return Err(DecodeError::SchemaMismatch);
            },
        }
        i = i + 1;
    }
    assert(records.deep_view() =~= Seq::new(
        models.len(),
        |i: int| decode_record_spec(p, models[i])->0,
    ));
    Ok(records)
}

/// Decodes a listing payload of protocol `p`: `Ok` with the records exactly
/// where the payload is JSON text for an array of the protocol's records,
/// `SchemaMismatch` for every other payload.
pub fn decode(p: Protocol, payload: &str) -> (r: Result<Vec<NodeRecord>, DecodeError>)
    ensures
        match r {
            Ok(records) => decode_spec(p, payload@) == Ok::<Seq<RecordModel>, DecodeError>(
                records.deep_view(),
            ),
            Err(e) => decode_spec(p, payload@) == Err::<Seq<RecordModel>, DecodeError>(e),
        },
{
    match parse_value(payload) {
        Some(v) => decode_value(p, &v),
        None => Err(DecodeError::SchemaMismatch),
    }
}

/// Decodes a listing payload of protocol `p` that is given as bytes: `Ok`
/// with the records exactly where the bytes are UTF-8 for a text that
/// [`decode`] accepts, `SchemaMismatch` for every other payload.
pub fn decode_bytes(p: Protocol, payload: &[u8]) -> (r: Result<Vec<NodeRecord>, DecodeError>)
    ensures
        match r {
            Ok(records) => decode_bytes_spec(p, payload@) == Ok::<Seq<RecordModel>, DecodeError>(
                records.deep_view(),
            ),
            Err(e) => decode_bytes_spec(p, payload@) == Err::<Seq<RecordModel>, DecodeError>(e),
        },
{
    match utf8_text(payload) {
        Some(text) => {
            proof {
                // the bytes of a string are valid UTF-8 and decode to it
                vstd::utf8::encode_utf8_valid_utf8(text@);
                vstd::utf8::encode_utf8_decode_utf8(text@);
            }
            decode(p, text)
        },
        None => Err(DecodeError::SchemaMismatch),
    }
}

/// Reads the identifier out of a JSON value that is an allocation response:
/// `Ok` exactly where the value is an object with a string under `uid`.
pub fn allocation_from_value(v: &serde_json::Value) -> (r: Result<String, DecodeError>)
    ensures
        match r {
            Ok(uid) => allocation_of(json_content(*v)) == Ok::<Seq<char>, DecodeError>(uid@),
            Err(e) => allocation_of(json_content(*v)) == Err::<Seq<char>, DecodeError>(e),
        },
{
    match text_at(v, "uid") {
        Some(uid) => Ok(uid),
        None => Err(DecodeError::SchemaMismatch),
    }
}

/// Reads the identifier out of an allocation response: `Ok` exactly where
/// the body is JSON text for an object with a string under `uid`.
pub fn decode_allocation(body: &str) -> (r: Result<String, DecodeError>)
    ensures
        match r {
            Ok(uid) => allocation_spec(body@) == Ok::<Seq<char>, DecodeError>(uid@),
            Err(e) => allocation_spec(body@) == Err::<Seq<char>, DecodeError>(e),
        },
{
    match parse_value(body) {
        Some(v) => allocation_from_value(&v),
        None => Err(DecodeError::SchemaMismatch),
    }
}

/// One field of a submission: a name and a text value.
#[derive(Clone, Debug, PartialEq, Eq)]
pub struct WireField {
    pub name: String,
    pub value: String,
}

impl DeepView for WireField {
    type V = (Seq<char>, Seq<char>);

    open spec fn deep_view(&self) -> (Seq<char>, Seq<char>) {
        (self.name@, self.value@)
    }
}

/// The body of a submission: its fields in order. Every value travels as a
/// JSON string.
#[derive(Clone, Debug, PartialEq, Eq)]
pub struct WirePayload {
    pub fields: Vec<WireField>,
}

impl View for WirePayload {
    type V = Seq<(Seq<char>, Seq<char>)>;

    open spec fn view(&self) -> Seq<(Seq<char>, Seq<char>)> {
        self.fields.deep_view()
    }
}

/// The fields that submit a record. A generic record travels without the
/// instant of its last update, which only the backend sets; numbers travel as
/// their canonical decimal numerals.
pub open spec fn encode_spec(r: RecordModel) -> Seq<(Seq<char>, Seq<char>)> {
    match r {
        RecordModel::Generic { uid, name, value, rw_direction, .. } => seq![
            ("node_val"@, value),
            ("node_name"@, name),
            ("node_rw_direction"@, direction_token(rw_direction)),
            ("node_uid"@, uid),
        ],
        RecordModel::ModbusMapping { locked_to_uid, ip, port, register, rw_direction } => seq![
            ("mb_lock_to_uid"@, locked_to_uid),
            ("mb_ip"@, ip),
            ("mb_port"@, decimal_digits(port as nat)),
            ("mb_register"@, decimal_digits(register as nat)),
            ("mb_rw"@, direction_token(rw_direction)),
        ],
        RecordModel::MqttMapping { locked_to_uid, ip, topic, topic_modifier, rw_direction } => seq![
            ("mqtt_lock_to_uid"@, locked_to_uid),
            ("mqtt_ip"@, ip),
            ("mqtt_topic"@, topic),
            ("mqtt_topic_modif"@, topic_modifier),
            ("mqtt_rw"@, direction_token(rw_direction)),
        ],
    }
}

/// The JSON object that carries a payload: one string entry per field, in
/// the payload's order.
pub open spec fn payload_json(fields: Seq<(Seq<char>, Seq<char>)>) -> JsonModel {
    JsonModel::Record(Seq::new(fields.len(), |i: int| (fields[i].0, JsonModel::Text(fields[i].1))))
}

fn wire_field(name: &str, value: String) -> (r: WireField)
    ensures
        r.deep_view() == (name@, value@),
{
    WireField { name: name.to_owned(), value }
}

/// Encodes a record for submission.
pub fn encode(record: &NodeRecord) -> (r: WirePayload)
    ensures
        r@ == encode_spec(record@),
{
    let mut fields: Vec<WireField> = Vec::new();
    match record {
        NodeRecord::Generic { uid, name, value, rw_direction, last_update: _ } => {
            fields.push(wire_field("node_val", value.clone()));
            fields.push(wire_field("node_name", name.clone()));
            fields.push(wire_field("node_rw_direction", direction_word(*rw_direction).to_owned()));
            fields.push(wire_field("node_uid", uid.clone()));
        },
        NodeRecord::ModbusMapping { locked_to_uid, ip, port, register, rw_direction } => {
            fields.push(wire_field("mb_lock_to_uid", locked_to_uid.clone()));
            fields.push(wire_field("mb_ip", ip.clone()));
            fields.push(wire_field("mb_port", format_decimal(*port)));
            fields.push(wire_field("mb_register", format_decimal(*register)));
            fields.push(wire_field("mb_rw", direction_word(*rw_direction).to_owned()));
        },
        NodeRecord::MqttMapping { locked_to_uid, ip, topic, topic_modifier, rw_direction } => {
            fields.push(wire_field("mqtt_lock_to_uid", locked_to_uid.clone()));
            fields.push(wire_field("mqtt_ip", ip.clone()));
            fields.push(wire_field("mqtt_topic", topic.clone()));
            fields.push(wire_field("mqtt_topic_modif", topic_modifier.clone()));
            fields.push(wire_field("mqtt_rw", direction_word(*rw_direction).to_owned()));
        },
    }
    assert(fields.deep_view() =~= encode_spec(record@));
    WirePayload { fields }
}

/// What a creation form holds before an identifier is stamped on it.
#[derive(Clone, Debug, PartialEq, Eq)]
pub enum RecordDraft {
    Generic { name: String, value: String, rw_direction: RwDirection },
    ModbusMapping { ip: String, port: u64, register: u64, rw_direction: RwDirection },
    MqttMapping { ip: String, topic: String, topic_modifier: String, rw_direction: RwDirection },
}

/// A draft with its texts as character sequences.
pub enum DraftModel {
    Generic { name: Seq<char>, value: Seq<char>, rw_direction: RwDirection },
    ModbusMapping { ip: Seq<char>, port: u64, register: u64, rw_direction: RwDirection },
    MqttMapping {
        ip: Seq<char>,
        topic: Seq<char>,
        topic_modifier: Seq<char>,
        rw_direction: RwDirection,
    },
}

impl View for RecordDraft {
    type V = DraftModel;

    open spec fn view(&self) -> DraftModel {
        match *self {
            RecordDraft::Generic { name, value, rw_direction } => DraftModel::Generic {
                name: name@,
                value: value@,
                rw_direction,
            },
            RecordDraft::ModbusMapping { ip, port, register, rw_direction } => {
                DraftModel::ModbusMapping { ip: ip@, port, register, rw_direction }
            },
            RecordDraft::MqttMapping { ip, topic, topic_modifier, rw_direction } => {
                DraftModel::MqttMapping {
                    ip: ip@,
                    topic: topic@,
                    topic_modifier: topic_modifier@,
                    rw_direction,
                }
            },
        }
    }
}

/// The protocol family of a draft.
pub open spec fn draft_protocol(d: DraftModel) -> Protocol {
    match d {
        DraftModel::Generic { .. } => Protocol::Rapi,
        DraftModel::ModbusMapping { .. } => Protocol::ModbusTcp,
        DraftModel::MqttMapping { .. } => Protocol::Mqtt,
    }
}

/// The record that a draft becomes under the identifier `id`: a generic
/// record takes it as its own, a mapping as the node it is bound to.
pub open spec fn stamp_spec(d: DraftModel, id: Seq<char>) -> RecordModel {
    match d {
        DraftModel::Generic { name, value, rw_direction } => RecordModel::Generic {
            uid: id,
            name,
            value,
            rw_direction,
            last_update: None,
        },
        DraftModel::ModbusMapping { ip, port, register, rw_direction } => {
            RecordModel::ModbusMapping { locked_to_uid: id, ip, port, register, rw_direction }
        },
        DraftModel::MqttMapping { ip, topic, topic_modifier, rw_direction } => {
            RecordModel::MqttMapping { locked_to_uid: id, ip, topic, topic_modifier, rw_direction }
        },
    }
}

/// Stamps an identifier on a draft. The record is of the draft's protocol,
/// carries the draft's fields unchanged, and its node identifier is `id`.
pub fn stamp(draft: RecordDraft, id: &str) -> (r: NodeRecord)
    ensures
        r@ == stamp_spec(draft@, id@),
        node_identifier(r@) == id@,
        protocol_of(r@) == draft_protocol(draft@),
{
    match draft {
        RecordDraft::Generic { name, value, rw_direction } => NodeRecord::Generic {
            uid: id.to_owned(),
            name,
            value,
            rw_direction,
            last_update: None,
        },
        RecordDraft::ModbusMapping { ip, port, register, rw_direction } => {
            NodeRecord::ModbusMapping {
                locked_to_uid: id.to_owned(),
                ip,
                port,
                register,
                rw_direction,
            }
        },
        RecordDraft::MqttMapping { ip, topic, topic_modifier, rw_direction } => {
            NodeRecord::MqttMapping {
                locked_to_uid: id.to_owned(),
                ip,
                topic,
                topic_modifier,
                rw_direction,
            }
        },
    }
}

/// A value decodes as a record of protocol `p` exactly where it conforms to
/// the protocol's record schema, and the record is then of that protocol.
pub proof fn lemma_decodes_where_conforms(p: Protocol, m: JsonModel)
    ensures
        decode_record_spec(p, m) is Some <==> conforms(p, m),
        decode_record_spec(p, m) matches Some(r) ==> protocol_of(r) == p,
{
    let s = schema_of(p);
    if conforms(p, m) {
        assert(field_conforms(m, s[0]));
        assert(field_conforms(m, s[1]));
        assert(field_conforms(m, s[2]));
        assert(field_conforms(m, s[3]));
        assert(field_conforms(m, s[4]));
    }
    if decode_record_spec(p, m) is Some {
        assert forall|i: int| 0 <= i < s.len() implies field_conforms(m, #[trigger] s[i]) by {
            if i == 0 {
            } else if i == 1 {
            } else if i == 2 {
            } else if i == 3 {
            } else {
            }
        }
    }
}

/// An empty array lists no records, whatever the protocol: it decodes to the
/// empty list and is no mismatch.
pub proof fn lemma_empty_listing_decodes(p: Protocol)
    ensures
        decode_list_spec(p, JsonModel::List(Seq::empty())) == Ok::<Seq<RecordModel>, DecodeError>(
            Seq::empty(),
        ),
{
    let items = Seq::<JsonModel>::empty();
    assert(Seq::new(items.len(), |i: int| decode_record_spec(p, items[i])->0) =~= Seq::<
        RecordModel,
    >::empty());
}

/// A direction word is read back as the direction it stands for.
pub proof fn lemma_direction_round_trip(d: RwDirection)
    ensures
        direction_of_token(direction_token(d)) == Some(d),
{
    reveal_strlit("r");
    reveal_strlit("w");
    reveal_strlit("rw");
    assert("r"@.len() != "rw"@.len());
    assert("w"@.len() != "rw"@.len());
    assert("r"@[0] != "w"@[0]);
}

/// Tolerant decoding of numbers: the number `n` and the string that is its
/// decimal numeral decode to the same value `n`, and a string that is no
/// numeral does not decode.
pub proof fn lemma_numeric_tolerant(n: u64)
    ensures
        numeric_of(JsonModel::Number(JsonNumber::Unsigned(n))) == Some(n),
        numeric_of(JsonModel::Text(decimal_digits(n as nat))) == Some(n),
        forall|t: Seq<char>| !is_numeral(t) ==> numeric_of(JsonModel::Text(t)) is None,
{
    lemma_decimal_round_trip(n as nat);
}

/// The five field names of a Modbus mapping are pairwise different.
proof fn lemma_modbus_keys_distinct()
    ensures
        "mb_lock_to_uid"@ != "mb_ip"@,
        "mb_lock_to_uid"@ != "mb_port"@,
        "mb_lock_to_uid"@ != "mb_register"@,
        "mb_lock_to_uid"@ != "mb_rw"@,
        "mb_ip"@ != "mb_port"@,
        "mb_ip"@ != "mb_register"@,
        "mb_ip"@ != "mb_rw"@,
        "mb_port"@ != "mb_register"@,
        "mb_port"@ != "mb_rw"@,
        "mb_register"@ != "mb_rw"@,
{
    reveal_strlit("mb_lock_to_uid");
    reveal_strlit("mb_ip");
    reveal_strlit("mb_port");
    reveal_strlit("mb_register");
    reveal_strlit("mb_rw");
    assert("mb_lock_to_uid"@.len() == 14);
    assert("mb_ip"@.len() == 5);
    assert("mb_port"@.len() == 7);
    assert("mb_register"@.len() == 11);
    assert("mb_rw"@.len() == 5);
    assert("mb_ip"@[3] != "mb_rw"@[3]);
}

/// The five field names of an MQTT mapping are pairwise different.
proof fn lemma_mqtt_keys_distinct()
    ensures
        "mqtt_lock_to_uid"@ != "mqtt_ip"@,
        "mqtt_lock_to_uid"@ != "mqtt_topic"@,
        "mqtt_lock_to_uid"@ != "mqtt_topic_modif"@,
        "mqtt_lock_to_uid"@ != "mqtt_rw"@,
        "mqtt_ip"@ != "mqtt_topic"@,
        "mqtt_ip"@ != "mqtt_topic_modif"@,
        "mqtt_ip"@ != "mqtt_rw"@,
        "mqtt_topic"@ != "mqtt_topic_modif"@,
        "mqtt_topic"@ != "mqtt_rw"@,
        "mqtt_topic_modif"@ != "mqtt_rw"@,
{
    reveal_strlit("mqtt_lock_to_uid");
    reveal_strlit("mqtt_ip");
    reveal_strlit("mqtt_topic");
    reveal_strlit("mqtt_topic_modif");
    reveal_strlit("mqtt_rw");
    assert("mqtt_lock_to_uid"@.len() == 16);
    assert("mqtt_ip"@.len() == 7);
    assert("mqtt_topic"@.len() == 10);
    assert("mqtt_topic_modif"@.len() == 16);
    assert("mqtt_rw"@.len() == 7);
    assert("mqtt_lock_to_uid"@[5] != "mqtt_topic_modif"@[5]);
    assert("mqtt_ip"@[5] != "mqtt_rw"@[5]);
}

/// A field of a payload with pairwise different names is found in the JSON
/// object that carries the payload, as a string.
proof fn lemma_payload_field(fields: Seq<(Seq<char>, Seq<char>)>, i: int)
    requires
        0 <= i < fields.len(),
        forall|j: int| 0 <= j < i ==> (#[trigger] fields[j]).0 != fields[i].0,
    ensures
        field_of(payload_json(fields), fields[i].0) == Some(JsonModel::Text(fields[i].1)),
{
    let entries = payload_json(fields)->Record_0;
    assert forall|j: int| 0 <= j < i implies (#[trigger] entries[j]).0 != fields[i].0 by {
        assert(entries[j].0 == fields[j].0);
    }
    lemma_entry_at(entries, i, fields[i].0);
}

/// Round trip of a Modbus mapping: decoding the JSON object that carries
/// the encoded record gives the record back, field for field; so does
/// decoding a listing that holds just that object.
pub proof fn lemma_modbus_round_trip(r: RecordModel)
    requires
        r is ModbusMapping,
    ensures
        decode_record_spec(Protocol::ModbusTcp, payload_json(encode_spec(r))) == Some(r),
        decode_list_spec(Protocol::ModbusTcp, JsonModel::List(seq![payload_json(encode_spec(r))]))
            == Ok::<Seq<RecordModel>, DecodeError>(seq![r]),
{
    let fields = encode_spec(r);
    let m = payload_json(fields);
    lemma_modbus_keys_distinct();
    lemma_payload_field(fields, 0);
    lemma_payload_field(fields, 1);
    lemma_payload_field(fields, 2);
    lemma_payload_field(fields, 3);
    lemma_payload_field(fields, 4);
    match r {
        RecordModel::ModbusMapping { locked_to_uid, ip, port, register, rw_direction } => {
            lemma_decimal_round_trip(port as nat);
            lemma_decimal_round_trip(register as nat);
            lemma_direction_round_trip(rw_direction);
            assert(text_field(m, "mb_lock_to_uid"@) == Some(locked_to_uid));
            assert(text_field(m, "mb_ip"@) == Some(ip));
            assert(numeric_field(m, "mb_port"@) == Some(port));
            assert(numeric_field(m, "mb_register"@) == Some(register));
            assert(direction_field(m, "mb_rw"@) == Some(rw_direction));
        },
        _ => {},
    }
    assert(decode_record_spec(Protocol::ModbusTcp, m) == Some(r));
    let items = seq![m];
    assert(items[0] == m);
    assert(all_records(Protocol::ModbusTcp, items));
    assert(Seq::new(items.len(), |i: int| decode_record_spec(Protocol::ModbusTcp, items[i])->0)
        =~= seq![r]);
}

/// Round trip of an MQTT mapping, as for a Modbus mapping.
pub proof fn lemma_mqtt_round_trip(r: RecordModel)
    requires
        r is MqttMapping,
    ensures
        decode_record_spec(Protocol::Mqtt, payload_json(encode_spec(r))) == Some(r),
        decode_list_spec(Protocol::Mqtt, JsonModel::List(seq![payload_json(encode_spec(r))]))
            == Ok::<Seq<RecordModel>, DecodeError>(seq![r]),
{
    let fields = encode_spec(r);
    let m = payload_json(fields);
    lemma_mqtt_keys_distinct();
    lemma_payload_field(fields, 0);
    lemma_payload_field(fields, 1);
    lemma_payload_field(fields, 2);
    lemma_payload_field(fields, 3);
    lemma_payload_field(fields, 4);
    match r {
        RecordModel::MqttMapping { locked_to_uid, ip, topic, topic_modifier, rw_direction } => {
            lemma_direction_round_trip(rw_direction);
            assert(text_field(m, "mqtt_lock_to_uid"@) == Some(locked_to_uid));
            assert(text_field(m, "mqtt_ip"@) == Some(ip));
            assert(text_field(m, "mqtt_topic"@) == Some(topic));
            assert(text_field(m, "mqtt_topic_modif"@) == Some(topic_modifier));
            assert(direction_field(m, "mqtt_rw"@) == Some(rw_direction));
        },
        _ => {},
    }
    assert(decode_record_spec(Protocol::Mqtt, m) == Some(r));
    let items = seq![m];
    assert(items[0] == m);
    assert(all_records(Protocol::Mqtt, items));
    assert(Seq::new(items.len(), |i: int| decode_record_spec(Protocol::Mqtt, items[i])->0)
        =~= seq![r]);
}

/// Whether `fields` are the fields `of` in some order: as many, each of
/// them among `fields`, and no name twice.
pub open spec fn rearranged(
    fields: Seq<(Seq<char>, Seq<char>)>,
    of: Seq<(Seq<char>, Seq<char>)>,
) -> bool {
    &&& fields.len() == of.len()
    &&& forall|j: int| 0 <= j < of.len() ==> fields.contains(#[trigger] of[j])
    &&& forall|a: int, b: int|
        0 <= a < b < fields.len() ==> (#[trigger] fields[a]).0 != (#[trigger] fields[b]).0
}

/// A field of a payload without repeated names is found in the JSON object
/// that carries the payload, wherever it stands.
proof fn lemma_payload_holds(fields: Seq<(Seq<char>, Seq<char>)>, field: (Seq<char>, Seq<char>))
    requires
        fields.contains(field),
        forall|a: int, b: int|
            0 <= a < b < fields.len() ==> (#[trigger] fields[a]).0 != (#[trigger] fields[b]).0,
    ensures
        field_of(payload_json(fields), field.0) == Some(JsonModel::Text(field.1)),
{
    let i = choose|i: int| 0 <= i < fields.len() && fields[i] == field;
    lemma_payload_field(fields, i);
}

/// The order of the fields does not matter: the round trip of a mapping
/// holds for every payload that carries the fields of the encoded record in
/// some order.
pub proof fn lemma_round_trip_in_any_order(r: RecordModel, fields: Seq<(Seq<char>, Seq<char>)>)
    requires
        r is ModbusMapping || r is MqttMapping,
        rearranged(fields, encode_spec(r)),
    ensures
        decode_record_spec(protocol_of(r), payload_json(fields)) == Some(r),
{
    let of = encode_spec(r);
    lemma_payload_holds(fields, of[0]);
    lemma_payload_holds(fields, of[1]);
    lemma_payload_holds(fields, of[2]);
    lemma_payload_holds(fields, of[3]);
    lemma_payload_holds(fields, of[4]);
    match r {
        RecordModel::ModbusMapping { port, register, rw_direction, .. } => {
            lemma_decimal_round_trip(port as nat);
            lemma_decimal_round_trip(register as nat);
            lemma_direction_round_trip(rw_direction);
        },
        RecordModel::MqttMapping { rw_direction, .. } => {
            lemma_direction_round_trip(rw_direction);
        },
        _ => {},
    }
}

/// The field under which a record of protocol `p` carries the identifier of
/// its node.
pub open spec fn identifier_key(p: Protocol) -> Seq<char> {
    match p {
        Protocol::Rapi => "node_uid"@,
        Protocol::ModbusTcp => "mb_lock_to_uid"@,
        Protocol::Mqtt => "mqtt_lock_to_uid"@,
    }
}

/// A stamped draft travels under its identifier: the JSON object that
/// carries the encoded record holds `id`, as a string, in the identifier
/// field of the draft's protocol.
pub proof fn lemma_submission_carries_identifier(d: DraftModel, id: Seq<char>)
    ensures
        field_of(
            payload_json(encode_spec(stamp_spec(d, id))),
            identifier_key(draft_protocol(d)),
        ) == Some(JsonModel::Text(id)),
{
    let fields = encode_spec(stamp_spec(d, id));
    match d {
        DraftModel::Generic { .. } => {
            reveal_strlit("node_val");
            reveal_strlit("node_name");
            reveal_strlit("node_rw_direction");
            reveal_strlit("node_uid");
            assert("node_val"@.len() == 8);
            assert("node_name"@.len() == 9);
            assert("node_rw_direction"@.len() == 17);
            assert("node_uid"@.len() == 8);
            assert("node_val"@[5] != "node_uid"@[5]);
            lemma_payload_field(fields, 3);
        },
        DraftModel::ModbusMapping { .. } => {
            lemma_payload_field(fields, 0);
        },
        DraftModel::MqttMapping { .. } => {
            lemma_payload_field(fields, 0);
        },
    }
}

} // verus!
