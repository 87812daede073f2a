use datanode_client::codec::{RecordDraft, RwDirection};
use datanode_client::form::{draft_from_inputs, form_fields, DraftError, FormField, InputKind};
use datanode_client::registry::Protocol;

fn texts(values: &[&str]) -> Vec<String> {
    values.iter().map(|v| v.to_string()).collect()
}

#[test]
fn forms_have_the_inputs_of_their_protocol() {
    assert_eq!(
        form_fields(Protocol::Rapi),
        vec![
            FormField { label: "Data node name: ", id: "name_input", kind: InputKind::Text },
            FormField { label: "Data node default value: ", id: "value_input", kind: InputKind::Text },
            FormField { label: "Data node read/write: ", id: "read_write_select", kind: InputKind::Direction },
        ]
    );
    assert_eq!(
        form_fields(Protocol::ModbusTcp),
        vec![
            FormField { label: "Mb IP: ", id: "mb_ip", kind: InputKind::Text },
            FormField { label: "Mb port: ", id: "mb_port", kind: InputKind::Numeric },
            FormField { label: "Mb register: ", id: "mb_register", kind: InputKind::Numeric },
            FormField { label: "Mb read/write: ", id: "mb_read_write_select", kind: InputKind::Direction },
        ]
    );
    assert_eq!(
        form_fields(Protocol::Mqtt),
        vec![
            FormField { label: "Mqtt IP: ", id: "mqtt_ip", kind: InputKind::Text },
            FormField { label: "Mqtt topic: ", id: "mqtt_topic", kind: InputKind::Text },
            FormField { label: "Mqtt topic modif: ", id: "mqtt_topic_modif", kind: InputKind::Text },
            FormField { label: "Mqtt read/write: ", id: "mqtt_read_write_select", kind: InputKind::Direction },
        ]
    );
}

#[test]
fn texts_of_a_generic_form_make_a_draft() {
    assert_eq!(
        draft_from_inputs(Protocol::Rapi, &texts(&["temp1", "0", "r"])),
        Ok(RecordDraft::Generic {
            name: "temp1".to_string(),
            value: "0".to_string(),
            rw_direction: RwDirection::Read,
        })
    );
    assert_eq!(
        draft_from_inputs(Protocol::Rapi, &texts(&["", "", "rw"])),
        Ok(RecordDraft::Generic {
            name: String::new(),
            value: String::new(),
            rw_direction: RwDirection::ReadWrite,
        })
    );
}

#[test]
fn texts_of_a_modbus_form_make_a_draft() {
    assert_eq!(
        draft_from_inputs(Protocol::ModbusTcp, &texts(&["10.0.0.5", "502", "40001", "w"])),
        Ok(RecordDraft::ModbusMapping {
            ip: "10.0.0.5".to_string(),
            port: 502,
            register: 40001,
            rw_direction: RwDirection::Write,
        })
    );
}

#[test]
fn texts_of_an_mqtt_form_make_a_draft() {
    assert_eq!(
        draft_from_inputs(Protocol::Mqtt, &texts(&["10.0.0.9", "plant/temp", "+", "rw"])),
        Ok(RecordDraft::MqttMapping {
            ip: "10.0.0.9".to_string(),
            topic: "plant/temp".to_string(),
            topic_modifier: "+".to_string(),
            rw_direction: RwDirection::ReadWrite,
        })
    );
}

#[test]
fn wrong_number_of_texts_makes_no_draft() {
    assert_eq!(draft_from_inputs(Protocol::Rapi, &texts(&[])), Err(DraftError::WrongCount));
    assert_eq!(
        draft_from_inputs(Protocol::Rapi, &texts(&["a", "b", "r", "x"])),
        Err(DraftError::WrongCount)
    );
    assert_eq!(
        draft_from_inputs(Protocol::ModbusTcp, &texts(&["a", "1", "r"])),
        Err(DraftError::WrongCount)
    );
    assert_eq!(
        draft_from_inputs(Protocol::Mqtt, &texts(&["a", "b", "c", "r", "r"])),
        Err(DraftError::WrongCount)
    );
}

#[test]
fn text_that_is_no_numeral_makes_no_draft() {
    assert_eq!(
        draft_from_inputs(Protocol::ModbusTcp, &texts(&["ip", "port", "3", "r"])),
        Err(DraftError::NotANumeral { field: 1 })
    );
    assert_eq!(
        draft_from_inputs(Protocol::ModbusTcp, &texts(&["ip", "502", "", "r"])),
        Err(DraftError::NotANumeral { field: 2 })
    );
    assert_eq!(
        draft_from_inputs(Protocol::ModbusTcp, &texts(&["ip", "x", "y", "z"])),
        Err(DraftError::NotANumeral { field: 1 })
    );
    assert_eq!(
        draft_from_inputs(Protocol::ModbusTcp, &texts(&["ip", "18446744073709551616", "1", "r"])),
        Err(DraftError::NotANumeral { field: 1 })
    );
}

#[test]
fn text_that_is_no_direction_makes_no_draft() {
    assert_eq!(
        draft_from_inputs(Protocol::Rapi, &texts(&["n", "v", "read"])),
        Err(DraftError::NotADirection { field: 2 })
    );
    assert_eq!(
        draft_from_inputs(Protocol::ModbusTcp, &texts(&["ip", "1", "2", ""])),
        Err(DraftError::NotADirection { field: 3 })
    );
    assert_eq!(
        draft_from_inputs(Protocol::Mqtt, &texts(&["ip", "t", "m", "RW"])),
        Err(DraftError::NotADirection { field: 3 })
    );
}

#[test]
fn draft_errors_are_described() {
    assert_eq!(DraftError::WrongCount.describe(), "The form is incomplete.");
    assert_eq!(
        DraftError::NotANumeral { field: 1 }.describe(),
        "Port and register must be numbers."
    );
    assert_eq!(DraftError::NotADirection { field: 3 }.describe(), "Choose r, w or rw.");
}
