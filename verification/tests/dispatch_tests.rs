use datanode_client::cache::{FetchState, ResourceCache};
use datanode_client::codec::{DecodeError, NodeRecord, RecordDraft, RwDirection, WireField};
use datanode_client::dispatch::{
    create_view, deliver_listing, list_view, refresh_listing, render_record, request_identifier,
    resolve, segment_for, show_listing, submission_request, submit_form, CreateView, DisplayRow,
    ListView, RenderPlan, RouteSegment,
};
use datanode_client::gate::{CreationGate, GateState};
use datanode_client::outcome::{Failure, HttpOutcome};
use datanode_client::registry::{descriptor, Protocol};

fn row(label: &'static str, value: &str) -> DisplayRow {
    DisplayRow { label, value: value.to_string() }
}

fn response(status: u16, body: &str) -> HttpOutcome {
    HttpOutcome::Response { status, body: body.to_string() }
}

#[test]
fn known_routes_resolve_to_their_views() {
    for (key, p) in [("rapi", Protocol::Rapi), ("mbtcp", Protocol::ModbusTcp), ("mqtt", Protocol::Mqtt)] {
        assert_eq!(resolve(key, ""), RenderPlan::Info(descriptor(p)));
        assert_eq!(resolve(key, "dnodes"), RenderPlan::List(descriptor(p)));
        assert_eq!(resolve(key, "list"), RenderPlan::List(descriptor(p)));
        assert_eq!(resolve(key, "newdnode"), RenderPlan::Create(descriptor(p)));
        assert_eq!(resolve(key, "create"), RenderPlan::Create(descriptor(p)));
    }
}

#[test]
fn unknown_segment_of_a_known_protocol_is_no_route() {
    assert_eq!(resolve("rapi", "settings"), RenderPlan::UnknownRoute);
    assert_eq!(resolve("mqtt", "DNODES"), RenderPlan::UnknownRoute);
}

#[test]
fn unknown_protocol_gets_the_neutral_view() {
    assert_eq!(
        resolve("opcua", ""),
        RenderPlan::Unsupported { notice: "No description for this data node" }
    );
    assert_eq!(resolve("opcua", "dnodes"), RenderPlan::Unsupported { notice: "No map" });
    assert_eq!(
        resolve("", "newdnode"),
        RenderPlan::Unsupported { notice: "There are no new nodes for this protocol" }
    );
    assert_eq!(
        resolve("opcua", "settings"),
        RenderPlan::Unsupported { notice: "Data protocol not found!" }
    );
}

#[test]
fn segments_are_read() {
    assert_eq!(segment_for(""), Some(RouteSegment::Info));
    assert_eq!(segment_for("dnodes"), Some(RouteSegment::List));
    assert_eq!(segment_for("newdnode"), Some(RouteSegment::Create));
    assert_eq!(segment_for("list"), Some(RouteSegment::List));
    assert_eq!(segment_for("create"), Some(RouteSegment::Create));
    assert_eq!(segment_for("info"), None);
    assert_eq!(segment_for("Dnodes"), None);
}

#[test]
fn generic_record_is_rendered_with_its_instant() {
    let record = NodeRecord::Generic {
        uid: "abc123".to_string(),
        name: "temp1".to_string(),
        value: "21.5".to_string(),
        rw_direction: RwDirection::Read,
        last_update: Some(1690000000000),
    };
    assert_eq!(
        render_record(&record),
        vec![
            row("Data node uid: ", "abc123"),
            row("Data node value: ", "21.5"),
            row("Data node last updated: ", "2023-07-22 4:26:40.0 +00:00:00"),
            row("Data node name: ", "temp1"),
            row("Data node read/write ? : ", "r"),
        ]
    );
}

#[test]
fn instant_is_displayed_as_bson_displays_it() {
    for millis in [0i64, -1, 1690000000000, i64::MAX, i64::MIN] {
        let record = NodeRecord::Generic {
            uid: String::new(),
            name: String::new(),
            value: String::new(),
            rw_direction: RwDirection::ReadWrite,
            last_update: Some(millis),
        };
        assert_eq!(
            render_record(&record)[2].value,
            bson::DateTime::from_millis(millis).to_string()
        );
    }
    assert_eq!(bson::DateTime::from_millis(0).to_string(), "1970-01-01 0:00:00.0 +00:00:00");
}

#[test]
fn record_that_is_not_stored_yet_shows_no_instant() {
    let record = NodeRecord::Generic {
        uid: "u".to_string(),
        name: "n".to_string(),
        value: "v".to_string(),
        rw_direction: RwDirection::Write,
        last_update: None,
    };
    assert_eq!(render_record(&record)[2], row("Data node last updated: ", ""));
}

#[test]
fn modbus_mapping_is_rendered() {
    let record = NodeRecord::ModbusMapping {
        locked_to_uid: "abc123".to_string(),
        ip: "10.0.0.5".to_string(),
        port: 502,
        register: 40001,
        rw_direction: RwDirection::ReadWrite,
    };
    assert_eq!(
        render_record(&record),
        vec![
            row("MB locked to dNode: ", "abc123"),
            row("MB ip: ", "10.0.0.5"),
            row("MB port: ", "502"),
            row("MB register: ", "40001"),
            row("MB read/write: ", "rw"),
        ]
    );
}

#[test]
fn mqtt_mapping_is_rendered() {
    let record = NodeRecord::MqttMapping {
        locked_to_uid: "abc123".to_string(),
        ip: "10.0.0.5".to_string(),
        topic: "plant/temp".to_string(),
        topic_modifier: "#".to_string(),
        rw_direction: RwDirection::Write,
    };
    assert_eq!(
        render_record(&record),
        vec![
            row("MQTT locked to dNode: ", "abc123"),
            row("MQTT ip: ", "10.0.0.5"),
            row("MQTT topic: ", "plant/temp"),
            row("MQTT topic modifier: ", "#"),
            row("MQTT read/write: ", "w"),
        ]
    );
}

#[test]
fn list_view_follows_the_fetch_state() {
    assert_eq!(list_view(&FetchState::Pending), ListView::Loading);
    assert_eq!(list_view(&FetchState::Ready(vec![])), ListView::Cards(vec![]));
    assert_eq!(
        list_view(&FetchState::Failed(Failure::Network("connection refused".to_string()))),
        ListView::CouldNotLoad("connection refused".to_string())
    );
    assert_eq!(
        list_view(&FetchState::Failed(Failure::Server(503))),
        ListView::CouldNotLoad("the server answered with status 503".to_string())
    );
    assert_eq!(
        list_view(&FetchState::Failed(Failure::Decode(DecodeError::SchemaMismatch))),
        ListView::CouldNotLoad("the response does not have the expected shape".to_string())
    );
}

#[test]
fn empty_mbtcp_listing_renders_an_empty_collection() {
    let mut cache = ResourceCache::new();
    let first = show_listing(&mut cache, Protocol::ModbusTcp);
    assert_eq!(first.view, ListView::Loading);
    assert_eq!(first.fetch, Some("/getall/mbstuff"));
    cache.resolve("mbtcp", Protocol::ModbusTcp, &response(200, "[]"));
    let second = show_listing(&mut cache, Protocol::ModbusTcp);
    assert_eq!(second.view, ListView::Cards(vec![]));
    assert_eq!(second.fetch, None);
    assert_eq!(cache.peek("mbtcp"), Some(FetchState::Ready(vec![])));
}

#[test]
fn mqtt_listing_that_fails_the_schema_is_a_failed_state() {
    let mut cache = ResourceCache::new();
    assert_eq!(show_listing(&mut cache, Protocol::Mqtt).fetch, Some("/getall/mqttstuff"));
    cache.resolve("mqtt", Protocol::Mqtt, &response(200, r#"[{"mqtt_ip":"10.0.0.9"}]"#));
    assert_eq!(
        cache.peek("mqtt"),
        Some(FetchState::Failed(Failure::Decode(DecodeError::SchemaMismatch)))
    );
    let shown = show_listing(&mut cache, Protocol::Mqtt);
    assert_eq!(
        shown.view,
        ListView::CouldNotLoad("the response does not have the expected shape".to_string())
    );
    assert_eq!(shown.fetch, None);
}

#[test]
fn listing_is_shown_card_by_card() {
    let mut cache = ResourceCache::new();
    show_listing(&mut cache, Protocol::ModbusTcp);
    let body = r#"[{"mb_lock_to_uid":"n1","mb_ip":"i1","mb_port":1,"mb_register":"2","mb_rw":"r"},
                   {"mb_lock_to_uid":"n2","mb_ip":"i2","mb_port":"3","mb_register":4,"mb_rw":"w"}]"#;
    cache.resolve("mbtcp", Protocol::ModbusTcp, &response(200, body));
    assert_eq!(
        show_listing(&mut cache, Protocol::ModbusTcp).view,
        ListView::Cards(vec![
            vec![
                row("MB locked to dNode: ", "n1"),
                row("MB ip: ", "i1"),
                row("MB port: ", "1"),
                row("MB register: ", "2"),
                row("MB read/write: ", "r"),
            ],
            vec![
                row("MB locked to dNode: ", "n2"),
                row("MB ip: ", "i2"),
                row("MB port: ", "3"),
                row("MB register: ", "4"),
                row("MB read/write: ", "w"),
            ],
        ])
    );
}

#[test]
fn submission_goes_to_the_create_path_of_the_record() {
    let generic = NodeRecord::Generic {
        uid: "abc123".to_string(),
        name: "temp1".to_string(),
        value: "0".to_string(),
        rw_direction: RwDirection::Read,
        last_update: None,
    };
    let request = submission_request(&generic);
    assert_eq!(request.path, "/u");
    assert!(request.payload.fields.contains(&WireField {
        name: "node_uid".to_string(),
        value: "abc123".to_string(),
    }));
    let mapping = NodeRecord::ModbusMapping {
        locked_to_uid: "abc123".to_string(),
        ip: "i".to_string(),
        port: 1,
        register: 2,
        rw_direction: RwDirection::Read,
    };
    assert_eq!(submission_request(&mapping).path, "/cmbtcp");
    let topic = NodeRecord::MqttMapping {
        locked_to_uid: "abc123".to_string(),
        ip: "i".to_string(),
        topic: "t".to_string(),
        topic_modifier: "m".to_string(),
        rw_direction: RwDirection::Read,
    };
    assert_eq!(submission_request(&topic).path, "/cmqtt");
}

#[test]
fn creation_view_follows_the_session() {
    let idle = create_view(&GateState::Idle);
    assert_eq!(
        idle,
        CreateView {
            identifier: None,
            generate_enabled: true,
            submit_enabled: false,
            busy: false,
            retry_enabled: false,
            notice: None,
        }
    );
    let allocating = create_view(&GateState::Allocating);
    assert!(!allocating.generate_enabled && !allocating.submit_enabled && allocating.busy);
    let allocated = create_view(&GateState::Allocated("abc123".to_string()));
    assert_eq!(allocated.identifier, Some("abc123".to_string()));
    assert!(!allocated.generate_enabled && allocated.submit_enabled && !allocated.busy);
    let submitting = create_view(&GateState::Submitting("abc123".to_string()));
    assert_eq!(submitting.identifier, Some("abc123".to_string()));
    assert!(!submitting.generate_enabled && !submitting.submit_enabled && submitting.busy);
    let failed = create_view(&GateState::Failed {
        reason: Failure::Server(500),
        retained: Some("abc123".to_string()),
    });
    assert_eq!(
        failed,
        CreateView {
            identifier: Some("abc123".to_string()),
            generate_enabled: false,
            submit_enabled: false,
            busy: false,
            retry_enabled: true,
            notice: Some("the server answered with status 500".to_string()),
        }
    );
}

#[test]
fn refreshed_listing_is_fetched_again() {
    let mut cache = ResourceCache::new();
    assert_eq!(show_listing(&mut cache, Protocol::Rapi).fetch, Some("/getall/bucket"));
    deliver_listing(&mut cache, Protocol::Rapi, &response(200, "[]"));
    assert_eq!(show_listing(&mut cache, Protocol::Rapi).fetch, None);
    refresh_listing(&mut cache, Protocol::Rapi);
    let again = show_listing(&mut cache, Protocol::Rapi);
    assert_eq!(again.view, ListView::Loading);
    assert_eq!(again.fetch, Some("/getall/bucket"));
    deliver_listing(&mut cache, Protocol::Rapi, &response(502, ""));
    assert_eq!(
        show_listing(&mut cache, Protocol::Rapi).view,
        ListView::CouldNotLoad("the server answered with status 502".to_string())
    );
}

#[test]
fn form_is_driven_through_its_session() {
    let mut gate = CreationGate::new();
    let draft = RecordDraft::Generic {
        name: "temp1".to_string(),
        value: "0".to_string(),
        rw_direction: RwDirection::Read,
    };
    assert_eq!(submit_form(&mut gate, draft.clone()), None);
    assert_eq!(request_identifier(&mut gate), Some("/c/"));
    assert_eq!(request_identifier(&mut gate), None);
    assert_eq!(submit_form(&mut gate, draft.clone()), None);
    gate.allocation_resolved(&response(200, r#"{"uid":"abc123"}"#));
    assert_eq!(request_identifier(&mut gate), None);
    let request = submit_form(&mut gate, draft.clone()).unwrap();
    assert_eq!(request.path, "/u");
    assert_eq!(
        request.payload.fields,
        vec![
            WireField { name: "node_val".to_string(), value: "0".to_string() },
            WireField { name: "node_name".to_string(), value: "temp1".to_string() },
            WireField { name: "node_rw_direction".to_string(), value: "r".to_string() },
            WireField { name: "node_uid".to_string(), value: "abc123".to_string() },
        ]
    );
    assert_eq!(submit_form(&mut gate, draft), None);
    gate.submission_resolved(&response(200, ""));
    assert_eq!(gate.state(), &GateState::Idle);
}
