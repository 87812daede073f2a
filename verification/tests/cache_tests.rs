use datanode_client::cache::{FetchState, Observation, ResourceCache};
use datanode_client::codec::{DecodeError, NodeRecord, RwDirection};
use datanode_client::outcome::{Failure, HttpOutcome};
use datanode_client::registry::Protocol;

fn records() -> Vec<NodeRecord> {
    vec![NodeRecord::MqttMapping {
        locked_to_uid: "n1".to_string(),
        ip: "10.0.0.9".to_string(),
        topic: "plant/temp".to_string(),
        topic_modifier: "+".to_string(),
        rw_direction: RwDirection::Read,
    }]
}

fn pending(issue: bool) -> Observation {
    Observation { state: FetchState::Pending, issue }
}

#[test]
fn first_observation_asks_for_the_fetch() {
    let mut cache = ResourceCache::new();
    assert_eq!(cache.peek("rapi"), None);
    assert_eq!(cache.get("rapi"), pending(true));
    assert_eq!(cache.peek("rapi"), Some(FetchState::Pending));
}

#[test]
fn observations_of_a_pending_slot_are_coalesced() {
    let mut cache = ResourceCache::new();
    let mut issued = 0;
    for _ in 0..5 {
        let seen = cache.get("rapi");
        assert_eq!(seen.state, FetchState::Pending);
        if seen.issue {
            issued += 1;
        }
    }
    assert_eq!(issued, 1);
}

#[test]
fn two_observers_share_the_outcome_of_one_fetch() {
    let mut cache = ResourceCache::new();
    let a = cache.get("rapi");
    let b = cache.get("rapi");
    assert_eq!((a.issue, b.issue), (true, false));
    cache.complete("rapi", Ok(vec![]));
    assert_eq!(cache.get("rapi"), Observation { state: FetchState::Ready(vec![]), issue: false });
    assert_eq!(cache.get("rapi"), Observation { state: FetchState::Ready(vec![]), issue: false });
}

#[test]
fn each_key_has_its_own_slot() {
    let mut cache = ResourceCache::new();
    assert!(cache.get("rapi").issue);
    assert!(cache.get("mbtcp").issue);
    assert!(cache.get("mqtt").issue);
    cache.complete("mqtt", Ok(records()));
    assert_eq!(cache.peek("rapi"), Some(FetchState::Pending));
    assert_eq!(cache.peek("mbtcp"), Some(FetchState::Pending));
    assert_eq!(cache.peek("mqtt"), Some(FetchState::Ready(records())));
    cache.invalidate("mqtt");
    assert_eq!(cache.peek("rapi"), Some(FetchState::Pending));
    assert_eq!(cache.peek("mqtt"), None);
}

#[test]
fn success_makes_the_slot_ready() {
    let mut cache = ResourceCache::new();
    cache.get("mqtt");
    cache.complete("mqtt", Ok(records()));
    assert_eq!(cache.get("mqtt"), Observation { state: FetchState::Ready(records()), issue: false });
}

#[test]
fn failure_is_terminal_until_invalidated() {
    let mut cache = ResourceCache::new();
    cache.get("rapi");
    cache.complete("rapi", Err(Failure::Network("timed out".to_string())));
    for _ in 0..3 {
        assert_eq!(
            cache.get("rapi"),
            Observation {
                state: FetchState::Failed(Failure::Network("timed out".to_string())),
                issue: false,
            }
        );
    }
    cache.invalidate("rapi");
    assert_eq!(cache.get("rapi"), pending(true));
}

#[test]
fn invalidation_of_a_ready_slot_fetches_again() {
    let mut cache = ResourceCache::new();
    cache.get("mqtt");
    cache.complete("mqtt", Ok(records()));
    cache.invalidate("mqtt");
    assert_eq!(cache.peek("mqtt"), None);
    assert_eq!(cache.get("mqtt"), pending(true));
    assert_eq!(cache.get("mqtt"), pending(false));
}

#[test]
fn invalidation_while_pending_starts_no_second_fetch() {
    let mut cache = ResourceCache::new();
    assert!(cache.get("rapi").issue);
    cache.invalidate("rapi");
    assert_eq!(cache.get("rapi"), pending(false));
}

#[test]
fn late_response_for_a_superseded_slot_is_discarded() {
    let mut cache = ResourceCache::new();
    cache.get("mqtt");
    cache.invalidate("mqtt");
    cache.complete("mqtt", Ok(records()));
    assert_eq!(cache.peek("mqtt"), None);
    assert_eq!(cache.get("mqtt"), pending(true));
    cache.complete("mqtt", Ok(vec![]));
    assert_eq!(cache.peek("mqtt"), Some(FetchState::Ready(vec![])));
}

#[test]
fn response_without_a_pending_slot_changes_nothing() {
    let mut cache = ResourceCache::new();
    cache.complete("mqtt", Ok(records()));
    assert_eq!(cache.peek("mqtt"), None);
    cache.get("mqtt");
    cache.complete("mqtt", Ok(vec![]));
    cache.complete("mqtt", Ok(records()));
    assert_eq!(cache.peek("mqtt"), Some(FetchState::Ready(vec![])));
    cache.complete("mqtt", Err(Failure::Server(500)));
    assert_eq!(cache.peek("mqtt"), Some(FetchState::Ready(vec![])));
}

#[test]
fn invalidation_of_an_unknown_key_changes_nothing() {
    let mut cache = ResourceCache::new();
    cache.invalidate("rapi");
    assert_eq!(cache.peek("rapi"), None);
    assert_eq!(cache.get("rapi"), pending(true));
}

#[test]
fn outcome_of_a_listing_call_fills_the_slot() {
    let mut cache = ResourceCache::new();
    cache.get("mqtt");
    let body = r#"[{"mqtt_lock_to_uid":"n1","mqtt_ip":"10.0.0.9","mqtt_topic":"plant/temp","mqtt_topic_modif":"+","mqtt_rw":"r"}]"#;
    cache.resolve("mqtt", Protocol::Mqtt, &HttpOutcome::Response { status: 200, body: body.to_string() });
    assert_eq!(cache.peek("mqtt"), Some(FetchState::Ready(records())));

    cache.get("a");
    cache.resolve("a", Protocol::Mqtt, &HttpOutcome::Response { status: 404, body: body.to_string() });
    assert_eq!(cache.peek("a"), Some(FetchState::Failed(Failure::Server(404))));

    cache.get("b");
    cache.resolve("b", Protocol::Mqtt, &HttpOutcome::TransportError("dns failure".to_string()));
    assert_eq!(cache.peek("b"), Some(FetchState::Failed(Failure::Network("dns failure".to_string()))));

    cache.get("c");
    cache.resolve("c", Protocol::Mqtt, &HttpOutcome::Response { status: 200, body: "<html>".to_string() });
    assert_eq!(
        cache.peek("c"),
        Some(FetchState::Failed(Failure::Decode(DecodeError::SchemaMismatch)))
    );
}

#[test]
fn many_keys_keep_their_states() {
    let mut cache = ResourceCache::new();
    for n in 0..50u64 {
        assert!(cache.get(&format!("refresh-{}", n)).issue);
    }
    for n in (0..50u64).step_by(2) {
        cache.complete(&format!("refresh-{}", n), Ok(vec![]));
    }
    for n in (0..50u64).step_by(5) {
        cache.invalidate(&format!("refresh-{}", n));
    }
    for n in 0..50u64 {
        let expected = if n % 2 == 0 {
            if n % 5 == 0 { None } else { Some(FetchState::Ready(vec![])) }
        } else {
            Some(FetchState::Pending)
        };
        assert_eq!(cache.peek(&format!("refresh-{}", n)), expected, "{}", n);
    }
}
