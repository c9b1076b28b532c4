use cim_domain_bevy::event_stream::{
    cleanup_old_events, copy_of, event_from_message, parse_subject, plan_cleanup,
    process_incoming_event, receive_message, CleanupPlan, ConnectionRef, DomainEventReceived,
    EventFlowGraph, EventStore, EventVisualRef, SubjectParts, EVENTS_PER_FRAME,
};
use cim_domain_bevy::ids::EntityId;

fn parts(domain: &str, aggregate_type: &str, event_type: &str) -> Option<SubjectParts> {
    Some(SubjectParts {
        domain: domain.to_string(),
        aggregate_type: aggregate_type.to_string(),
        event_type: event_type.to_string(),
    })
}

fn event(id: &str, timestamp: i64, cause: Option<&str>) -> DomainEventReceived {
    DomainEventReceived {
        event_id: id.to_string(),
        timestamp,
        domain: "graph".to_string(),
        event_type: "event".to_string(),
        aggregate_id: "a".to_string(),
        aggregate_type: "node".to_string(),
        correlation_id: None,
        causation_id: cause.map(|c| c.to_string()),
        payload: serde_json::Value::Null,
    }
}

#[test]
fn subject_divides_at_dots() {
    assert_eq!(parse_subject("graph.node.event.v1"), parts("graph", "node", "event"));
    assert_eq!(parse_subject("graph.node.event"), parts("graph", "node", "event"));
    assert_eq!(parse_subject("a.b.c.d.e"), parts("a", "b", "c"));
    assert_eq!(parse_subject("a.b."), parts("a", "b", ""));
    assert_eq!(parse_subject("..x"), parts("", "", "x"));
    assert_eq!(parse_subject(".."), parts("", "", ""));
    assert_eq!(parse_subject("ünï.cödé.évent.v1"), parts("ünï", "cödé", "évent"));
    assert_eq!(parse_subject("graph.node"), None);
    assert_eq!(parse_subject("graph"), None);
    assert_eq!(parse_subject(""), None);
    assert_eq!(parse_subject("."), None);
}

#[test]
fn message_with_all_fields() {
    let payload = br#"{
        "event_id": "e-1",
        "timestamp": "2024-01-01T00:00:00Z",
        "correlation_id": "c-1",
        "causation_id": "e-0",
        "aggregate_id": "order-7",
        "aggregate_type": "ignored",
        "total": 12
    }"#;
    let event = event_from_message("sales.order.placed.v1", payload, "fallback".to_string(), 5)
        .unwrap();
    assert_eq!(event.event_id, "e-1");
    assert_eq!(event.timestamp, 1_704_067_200_000);
    assert_eq!(event.domain, "sales");
    assert_eq!(event.aggregate_type, "order");
    assert_eq!(event.event_type, "placed");
    assert_eq!(event.aggregate_id, "order-7");
    assert_eq!(event.correlation_id, Some("c-1".to_string()));
    assert_eq!(event.causation_id, Some("e-0".to_string()));
    assert_eq!(event.payload["total"], serde_json::Value::from(12));
}

#[test]
fn message_with_offset_and_fraction() {
    let payload = br#"{"timestamp": "2024-01-01T01:00:00.250+01:00"}"#;
    let event = event_from_message("a.b.c", payload, "f".to_string(), 5).unwrap();
    assert_eq!(event.timestamp, 1_704_067_200_250);
}

#[test]
fn message_without_fields_takes_the_stand_ins() {
    let event = event_from_message("a.b.c", b"{}", "fallback".to_string(), 77).unwrap();
    assert_eq!(event.event_id, "fallback");
    assert_eq!(event.timestamp, 77);
    assert_eq!(event.aggregate_id, "");
    assert_eq!(event.correlation_id, None);
    assert_eq!(event.causation_id, None);

    let payload = br#"{"event_id": 5, "timestamp": "yesterday", "aggregate_id": null}"#;
    let event = event_from_message("a.b.c", payload, "fallback".to_string(), 77).unwrap();
    assert_eq!(event.event_id, "fallback");
    assert_eq!(event.timestamp, 77);
    assert_eq!(event.aggregate_id, "");

    let event = event_from_message("a.b.c", b"[1, 2]", "fallback".to_string(), 77).unwrap();
    assert_eq!(event.event_id, "fallback");
    assert_eq!(event.payload, serde_json::from_str::<serde_json::Value>("[1,2]").unwrap());
}

#[test]
fn message_is_dropped_without_subject_or_json() {
    assert_eq!(event_from_message("a.b", b"{}", "f".to_string(), 0), None);
    assert_eq!(event_from_message("a.b.c", b"{", "f".to_string(), 0), None);
    assert_eq!(event_from_message("a.b.c", b"", "f".to_string(), 0), None);
    assert_eq!(receive_message("a.b", b"{}"), None);
    assert_eq!(receive_message("a.b.c", b"not json"), None);
}

#[test]
fn received_message_gets_a_fresh_identifier() {
    let first = receive_message("a.b.c", b"{}").unwrap();
    let second = receive_message("a.b.c", b"{}").unwrap();
    assert_eq!(first.event_id.len(), 36);
    assert_ne!(first.event_id, second.event_id);
    assert!(first.timestamp > 1_600_000_000_000);
    let named = receive_message("a.b.c", br#"{"event_id": "mine"}"#).unwrap();
    assert_eq!(named.event_id, "mine");
}

#[test]
fn store_keeps_the_newest() {
    let mut store = EventStore::new(2);
    assert_eq!(store.get_all_events(), vec![]);
    store.add_event(event("1", 10, None));
    store.add_event(event("2", 20, None));
    assert_eq!(store.get_all_events(), vec![event("1", 10, None), event("2", 20, None)]);
    store.add_event(event("3", 30, None));
    assert_eq!(store.get_all_events(), vec![event("2", 20, None), event("3", 30, None)]);
    assert_eq!(store.events_after(20), vec![event("3", 30, None)]);
    assert_eq!(store.events_after(19), vec![event("2", 20, None), event("3", 30, None)]);
    assert_eq!(store.events_after(30), vec![]);
}

#[test]
fn store_without_room_keeps_one() {
    let mut store = EventStore::new(0);
    store.add_event(event("1", 10, None));
    assert_eq!(store.get_all_events(), vec![event("1", 10, None)]);
    store.add_event(event("2", 20, None));
    assert_eq!(store.get_all_events(), vec![event("2", 20, None)]);
}

#[test]
fn recent_events_are_those_of_the_last_seconds() {
    let now = chrono::Utc::now().timestamp_millis();
    let mut store = EventStore::new(10);
    store.add_event(event("old", now - 600_000, None));
    store.add_event(event("new", now - 1_000, None));
    assert_eq!(store.get_recent_events(300), vec![event("new", now - 1_000, None)]);
    assert_eq!(store.get_recent_events(3_600).len(), 2);
    assert_eq!(store.get_recent_events(0), vec![]);
}

#[test]
fn copy_is_equal() {
    let mut first = event("1", 10, Some("0"));
    first.correlation_id = Some("c".to_string());
    first.payload = serde_json::from_str("{\"a\":[1,2,{\"b\":null}]}").unwrap();
    assert_eq!(copy_of(&first), first);
}

#[test]
fn flow_graph_lists_effects_in_order() {
    let mut graph = EventFlowGraph::new();
    assert_eq!(graph.get_connected(&"a".to_string()), Vec::<String>::new());
    graph.add_edge("a".to_string(), "b".to_string());
    graph.add_edge("x".to_string(), "y".to_string());
    graph.add_edge("a".to_string(), "c".to_string());
    graph.add_edge("a".to_string(), "b".to_string());
    assert_eq!(graph.get_connected(&"a".to_string()), vec!["b", "c", "b"]);
    assert_eq!(graph.get_connected(&"x".to_string()), vec!["y"]);
    assert_eq!(graph.get_connected(&"b".to_string()), Vec::<String>::new());
}

#[test]
fn incoming_event_is_stored_and_linked() {
    assert_eq!(EVENTS_PER_FRAME, 10);
    let mut store = EventStore::new(5);
    let mut graph = EventFlowGraph::new();
    process_incoming_event(&mut store, &mut graph, event("1", 10, None));
    process_incoming_event(&mut store, &mut graph, event("2", 20, Some("1")));
    process_incoming_event(&mut store, &mut graph, event("3", 30, Some("1")));
    assert_eq!(store.get_all_events().len(), 3);
    assert_eq!(graph.get_connected(&"1".to_string()), vec!["2", "3"]);
    assert_eq!(graph.get_connected(&"2".to_string()), Vec::<String>::new());
}

fn visual(entity: u64, id: &str, timestamp: i64) -> EventVisualRef {
    EventVisualRef { entity: EntityId(entity), event_id: id.to_string(), timestamp }
}

fn connection(entity: u64, from: &str, to: &str) -> ConnectionRef {
    ConnectionRef { entity: EntityId(entity), from_event: from.to_string(), to_event: to.to_string() }
}

#[test]
fn cleanup_takes_the_old_and_what_hangs_on_them() {
    let events = vec![visual(1, "a", 10), visual(2, "b", 50), visual(3, "c", 49), visual(4, "d", 99)];
    let connections = vec![
        connection(10, "a", "b"),
        connection(11, "b", "d"),
        connection(12, "d", "c"),
        connection(13, "x", "y"),
    ];
    assert_eq!(
        plan_cleanup(&events, &connections, 50),
        CleanupPlan {
            events: vec![EntityId(1), EntityId(3)],
            connections: vec![EntityId(10), EntityId(12)],
        }
    );
    assert_eq!(
        plan_cleanup(&events, &connections, 10),
        CleanupPlan { events: vec![], connections: vec![] }
    );
    assert_eq!(plan_cleanup(&events, &connections, 100).events.len(), 4);
    assert_eq!(
        plan_cleanup(&events, &connections, 100).connections,
        vec![EntityId(10), EntityId(11), EntityId(12)]
    );
}

#[test]
fn cleanup_by_retention_reads_the_clock() {
    let now = chrono::Utc::now().timestamp_millis();
    let events = vec![visual(1, "a", now - 400_000), visual(2, "b", now - 1_000)];
    let connections = vec![connection(10, "a", "b")];
    assert_eq!(
        cleanup_old_events(&events, &connections, 300),
        CleanupPlan { events: vec![EntityId(1)], connections: vec![EntityId(10)] }
    );
    assert_eq!(
        cleanup_old_events(&events, &connections, 3_600),
        CleanupPlan { events: vec![], connections: vec![] }
    );
}
