//! The creation forms: which inputs the form of each protocol has, and how
//! the texts that a user typed become a draft.

use crate::codec::{
    direction_of_token, draft_protocol, parse_direction, DraftModel, RecordDraft, RwDirection,
};
use crate::registry::Protocol;
use crate::text::{numeral_value, parse_numeral};
use vstd::prelude::*;
use vstd::string::*;

verus! {

/// The kind of value that a form input takes.
#[derive(Clone, Copy, Debug, PartialEq, Eq, Structural)]
pub enum InputKind {
    /// Any text.
    Text,
    /// A decimal numeral of 64 bits.
    Numeric,
    /// One of the direction words `r`, `w`, `rw`.
    Direction,
}

/// One input of a creation form.
#[derive(Clone, Copy, Debug, PartialEq, Eq)]
pub struct FormField {
    pub label: &'static str,
    /// The identifier of the input element.
    pub id: &'static str,
    pub kind: InputKind,
}

/// Why the texts of a form make no draft.
#[derive(Clone, Copy, Debug, PartialEq, Eq, Structural)]
pub enum DraftError {
    /// There are not as many texts as the form has inputs.
    WrongCount,
    /// The text of this numeric input is no numeral of 64 bits.
    NotANumeral { field: usize },
    /// The text of this direction input is no direction word.
    NotADirection { field: usize },
}

/// The inputs of the creation form of protocol `p`, in order. The node
/// identifier is no input: it is stamped on the draft at submission.
pub open spec fn form_of(p: Protocol) -> Seq<FormField> {
    match p {
        Protocol::Rapi => seq![
            FormField { label: "Data node name: ", id: "name_input", kind: InputKind::Text },
            FormField {
                label: "Data node default value: ",
                id: "value_input",
                kind: InputKind::Text,
            },
            FormField {
                label: "Data node read/write: ",
                id: "read_write_select",
                kind: InputKind::Direction,
            },
        ],
        Protocol::ModbusTcp => seq![
            FormField { label: "Mb IP: ", id: "mb_ip", kind: InputKind::Text },
            FormField { label: "Mb port: ", id: "mb_port", kind: InputKind::Numeric },
            FormField { label: "Mb register: ", id: "mb_register", kind: InputKind::Numeric },
            FormField {
                label: "Mb read/write: ",
                id: "mb_read_write_select",
                kind: InputKind::Direction,
            },
        ],
        Protocol::Mqtt => seq![
            FormField { label: "Mqtt IP: ", id: "mqtt_ip", kind: InputKind::Text },
            FormField { label: "Mqtt topic: ", id: "mqtt_topic", kind: InputKind::Text },
            FormField {
                label: "Mqtt topic modif: ",
                id: "mqtt_topic_modif",
                kind: InputKind::Text,
            },
            FormField {
                label: "Mqtt read/write: ",
                id: "mqtt_read_write_select",
                kind: InputKind::Direction,
            },
        ],
    }
}

/// Whether `text` is a value of kind `kind`.
pub open spec fn input_conforms(kind: InputKind, text: Seq<char>) -> bool {
    match kind {
        InputKind::Text => true,
        InputKind::Numeric => numeral_value(text) is Some,
        InputKind::Direction => direction_of_token(text) is Some,
    }
}

/// The error of the text of input `field`, should it not conform.
pub open spec fn input_error(kind: InputKind, field: usize) -> DraftError {
    match kind {
        InputKind::Numeric => DraftError::NotANumeral { field },
        _ => DraftError::NotADirection { field },
    }
}

/// The first input of protocol `p`, from `from` on, whose text does not
/// conform; `None` where all conform.
pub open spec fn first_fault(p: Protocol, inputs: Seq<Seq<char>>, from: int) -> Option<int>
    decreases inputs.len() - from,
{
    if from >= inputs.len() || from < 0 {
        None
    } else if !input_conforms(form_of(p)[from].kind, inputs[from]) {
        Some(from)
    } else {
        first_fault(p, inputs, from + 1)
    }
}

/// The draft that conforming texts make.
pub open spec fn assemble(p: Protocol, inputs: Seq<Seq<char>>) -> DraftModel {
    match p {
        Protocol::Rapi => DraftModel::Generic {
            name: inputs[0],
            value: inputs[1],
            rw_direction: direction_of_token(inputs[2])->0,
        },
        Protocol::ModbusTcp => DraftModel::ModbusMapping {
            ip: inputs[0],
            port: numeral_value(inputs[1])->0,
            register: numeral_value(inputs[2])->0,
            rw_direction: direction_of_token(inputs[3])->0,
        },
        Protocol::Mqtt => DraftModel::MqttMapping {
            ip: inputs[0],
            topic: inputs[1],
            topic_modifier: inputs[2],
            rw_direction: direction_of_token(inputs[3])->0,
        },
    }
}

/// The draft that the texts of the form of protocol `p` make: there must be
/// one text per input, each of the input's kind; the first text that is not
/// gives the error.
pub open spec fn draft_spec(p: Protocol, inputs: Seq<Seq<char>>) -> Result<DraftModel, DraftError> {
    if inputs.len() != form_of(p).len() {
        Err(DraftError::WrongCount)
    } else {
        match first_fault(p, inputs, 0) {
            Some(i) => Err(input_error(form_of(p)[i].kind, i as usize)),
            None => Ok(assemble(p, inputs)),
        }
    }
}

/// The inputs of the creation form of protocol `p`.
pub fn form_fields(p: Protocol) -> (fields: Vec<FormField>)
    ensures
        fields@ == form_of(p),
{
    let mut fields: Vec<FormField> = Vec::new();
    match p {
        Protocol::Rapi => {
            fields.push(
                FormField { label: "Data node name: ", id: "name_input", kind: InputKind::Text },
            );
            fields.push(
                FormField {
                    label: "Data node default value: ",
                    id: "value_input",
                    kind: InputKind::Text,
                },
            );
            fields.push(
                FormField {
                    label: "Data node read/write: ",
                    id: "read_write_select",
                    kind: InputKind::Direction,
                },
            );
        },
        Protocol::ModbusTcp => {
            fields.push(FormField { label: "Mb IP: ", id: "mb_ip", kind: InputKind::Text });
            fields.push(FormField { label: "Mb port: ", id: "mb_port", kind: InputKind::Numeric });
            fields.push(
                FormField { label: "Mb register: ", id: "mb_register", kind: InputKind::Numeric },
            );
            fields.push(
                FormField {
                    label: "Mb read/write: ",
                    id: "mb_read_write_select",
                    kind: InputKind::Direction,
                },
            );
        },
        Protocol::Mqtt => {
            fields.push(FormField { label: "Mqtt IP: ", id: "mqtt_ip", kind: InputKind::Text });
            fields.push(
                FormField { label: "Mqtt topic: ", id: "mqtt_topic", kind: InputKind::Text },
            );
            fields.push(
                FormField {
                    label: "Mqtt topic modif: ",
                    id: "mqtt_topic_modif",
                    kind: InputKind::Text,
                },
            );
            fields.push(
                FormField {
                    label: "Mqtt read/write: ",
                    id: "mqtt_read_write_select",
                    kind: InputKind::Direction,
                },
            );
        },
    }
    assert(fields@ =~= form_of(p));
    fields
}

fn direction_input(text: &str, field: usize) -> (r: Result<RwDirection, DraftError>)
    ensures
        r == (match direction_of_token(text@) {
            Some(d) => Ok::<RwDirection, DraftError>(d),
            None => Err::<RwDirection, DraftError>(DraftError::NotADirection { field }),
        }),
{
    match parse_direction(text) {
        Some(d) => Ok(d),
        None => Err(DraftError::NotADirection { field }),
    }
}

fn numeric_input(text: &str, field: usize) -> (r: Result<u64, DraftError>)
    ensures
        r == (match numeral_value(text@) {
            Some(n) => Ok::<u64, DraftError>(n),
            None => Err::<u64, DraftError>(DraftError::NotANumeral { field }),
        }),
{
    match parse_numeral(text) {
        Some(n) => Ok(n),
        None => Err(DraftError::NotANumeral { field }),
    }
}

/// Makes a draft of the texts of the form of protocol `p`, given in the
/// order of the form's inputs.
pub fn draft_from_inputs(p: Protocol, inputs: &Vec<String>) -> (r: Result<RecordDraft, DraftError>)
    ensures
        match r {
            Ok(draft) => draft_spec(p, inputs.deep_view()) == Ok::<DraftModel, DraftError>(
                draft@,
            ),
            Err(e) => draft_spec(p, inputs.deep_view()) == Err::<DraftModel, DraftError>(e),
        },
{
    let ghost texts = inputs.deep_view();
    proof {
        reveal_with_fuel(first_fault, 5);
        assert(forall|i: int| 0 <= i < inputs.len() ==> texts[i] == #[trigger] inputs[i]@);
    }
    match p {
        Protocol::Rapi => {
            if inputs.len() != 3 {
                return Err(DraftError::WrongCount);
            }
            let rw_direction = match direction_input(inputs[2].as_str(), 2) {
                Ok(d) => d,
                Err(e) => {
                    return Err(e);
                },
            };
            Ok(
                RecordDraft::Generic {
                    name: inputs[0].clone(),
                    value: inputs[1].clone(),
                    rw_direction,
                },
            )
        },
        Protocol::ModbusTcp => {
            if inputs.len() != 4 {
                return Err(DraftError::WrongCount);
            }
            let port = match numeric_input(inputs[1].as_str(), 1) {
                Ok(n) => n,
                Err(e) => {
                    return Err(e);
                },
            };
            let register = match numeric_input(inputs[2].as_str(), 2) {
                Ok(n) => n,
                Err(e) => {
                    return Err(e);
                },
            };
            let rw_direction = match direction_input(inputs[3].as_str(), 3) {
                Ok(d) => d,
                Err(e) => {
                    return Err(e);
                },
            };
            Ok(RecordDraft::ModbusMapping { ip: inputs[0].clone(), port, register, rw_direction })
        },
        Protocol::Mqtt => {
            if inputs.len() != 4 {
                return Err(DraftError::WrongCount);
            }
            let rw_direction = match direction_input(inputs[3].as_str(), 3) {
                Ok(d) => d,
                Err(e) => {
                    return Err(e);
                },
            };
            Ok(
                RecordDraft::MqttMapping {
                    ip: inputs[0].clone(),
                    topic: inputs[1].clone(),
                    topic_modifier: inputs[2].clone(),
                    rw_direction,
                },
            )
        },
    }
}

impl DraftError {
    /// The error in words, for display beside the form.
    pub fn describe(&self) -> (r: &'static str)
        ensures
            r == draft_error_text(*self),
    {
        match self {
            DraftError::WrongCount => "The form is incomplete.",
            DraftError::NotANumeral { .. } => "Port and register must be numbers.",
            DraftError::NotADirection { .. } => "Choose r, w or rw.",
        }
    }
}

/// The words that describe a draft error.
pub open spec fn draft_error_text(e: DraftError) -> &'static str {
    match e {
        DraftError::WrongCount => "The form is incomplete.",
        DraftError::NotANumeral { .. } => "Port and register must be numbers.",
        DraftError::NotADirection { .. } => "Choose r, w or rw.",
    }
}

/// A draft is made exactly of texts that conform to the form, one per
/// input, and it is a draft of the form's protocol.
pub proof fn lemma_draft_where_conforms(p: Protocol, inputs: Seq<Seq<char>>)
    ensures
        draft_spec(p, inputs) is Ok <==> inputs.len() == form_of(p).len() && forall|i: int|
            0 <= i < inputs.len() ==> input_conforms(form_of(p)[i].kind, #[trigger] inputs[i]),
        draft_spec(p, inputs) matches Ok(d) ==> draft_protocol(d) == p,
{
    if inputs.len() == form_of(p).len() {
        lemma_first_fault(p, inputs, 0);
    }
}

/// The first fault is a fault, and there is none before it.
proof fn lemma_first_fault(p: Protocol, inputs: Seq<Seq<char>>, from: int)
    requires
        0 <= from <= inputs.len(),
        inputs.len() == form_of(p).len(),
    ensures
        match first_fault(p, inputs, from) {
            Some(i) => from <= i < inputs.len() && !input_conforms(form_of(p)[i].kind, inputs[i])
                && forall|j: int|
                from <= j < i ==> input_conforms(form_of(p)[j].kind, #[trigger] inputs[j]),
            None => forall|j: int|
                from <= j < inputs.len() ==> input_conforms(
                    form_of(p)[j].kind,
                    #[trigger] inputs[j],
                ),
        },
    decreases inputs.len() - from,
{
    if from < inputs.len() && input_conforms(form_of(p)[from].kind, inputs[from]) {
        lemma_first_fault(p, inputs, from + 1);
    }
}

} // verus!
