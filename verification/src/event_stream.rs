//! The stream of events that arrives from the message bus.
//!
//! A message of the bus has a subject of the shape
//! `domain.aggregate.event.version` and a JSON payload. This module turns a
//! message into an event record, keeps the newest records in a bounded
//! store, and remembers which event caused which.

use std::collections::VecDeque;
use vstd::prelude::*;
use vstd::string::StrSliceExecFns;
use crate::ids::{random_uuid_text, EntityId};
use crate::json::{json_string_field, json_text_at, parse_json, parsed_json};
use crate::time::{cutoff_before, now_millis, parse_rfc3339, rfc3339_millis, seconds_before, Timestamp};

verus! {

/// An event of some domain, as it was read off the bus.
#[derive(Debug, Clone, PartialEq)]
pub struct DomainEventReceived {
    pub event_id: String,
    pub timestamp: Timestamp,
    pub domain: String,
    pub event_type: String,
    pub aggregate_id: String,
    pub aggregate_type: String,
    pub correlation_id: Option<String>,
    pub causation_id: Option<String>,
    pub payload: serde_json::Value,
}

/// An event record with its texts as sequences of characters.
pub struct EventRecord {
    pub event_id: Seq<char>,
    pub timestamp: Timestamp,
    pub domain: Seq<char>,
    pub event_type: Seq<char>,
    pub aggregate_id: Seq<char>,
    pub aggregate_type: Seq<char>,
    pub correlation_id: Option<Seq<char>>,
    pub causation_id: Option<Seq<char>>,
    pub payload: serde_json::Value,
}

/// The characters of a text that may be absent.
pub open spec fn text_of(text: Option<String>) -> Option<Seq<char>> {
    match text {
        Some(present) => Some(present@),
        None => None,
    }
}

impl View for DomainEventReceived {
    type V = EventRecord;

    open spec fn view(&self) -> EventRecord {
        EventRecord {
            event_id: self.event_id@,
            timestamp: self.timestamp,
            domain: self.domain@,
            event_type: self.event_type@,
            aggregate_id: self.aggregate_id@,
            aggregate_type: self.aggregate_type@,
            correlation_id: text_of(self.correlation_id),
            causation_id: text_of(self.causation_id),
            payload: self.payload,
        }
    }
}

/// The first three parts of a subject.
#[derive(Debug, Clone, PartialEq, Eq)]
pub struct SubjectParts {
    pub domain: String,
    pub aggregate_type: String,
    pub event_type: String,
}

/// The place of the first dot of `text` at or behind `from`, and the length
/// of `text` where there is none.
pub open spec fn next_dot(text: Seq<char>, from: int) -> int
    decreases text.len() - from,
{
    if from < 0 || from >= text.len() {
        text.len() as int
    } else if text[from] == '.' {
        from
    } else {
        next_dot(text, from + 1)
    }
}

/// The first three of the parts into which dots divide a subject: the
/// domain, the kind of aggregate and the kind of event. A subject of fewer
/// than three parts has none. A part may be empty.
pub open spec fn subject_parts(subject: Seq<char>) -> Option<(Seq<char>, Seq<char>, Seq<char>)> {
    let first = next_dot(subject, 0);
    let second = next_dot(subject, first + 1);
    let third = next_dot(subject, second + 1);
    if first >= subject.len() || second >= subject.len() {
        None
    } else {
        Some(
            (
                subject.subrange(0, first),
                subject.subrange(first + 1, second),
                subject.subrange(second + 1, third),
            ),
        )
    }
}

fn find_dot(text: &str, from: usize, len: usize) -> (dot: usize)
    requires
        len == text@.len(),
        from <= len,
    ensures
        dot == next_dot(text@, from as int),
        from <= dot <= len,
{
    let mut i = from;
    while i < len
        invariant
            from <= i <= len,
            len == text@.len(),
            next_dot(text@, from as int) == next_dot(text@, i as int),
        decreases len - i,
    {
        if text.get_char(i) == '.' {
            return i;
        }
        i = i + 1;
    }
    i
}

/// Divides a subject at its dots and keeps the first three parts.
pub fn parse_subject(subject: &str) -> (parts: Option<SubjectParts>)
    ensures
        parts is Some <==> subject_parts(subject@) is Some,
        parts matches Some(found) ==> Some((found.domain@, found.aggregate_type@, found.event_type@))
            == subject_parts(subject@),
{
    let len = subject.unicode_len();
    let first = find_dot(subject, 0, len);
    if first >= len {
        return None;
    }
    let second = find_dot(subject, first + 1, len);
    if second >= len {
        return None;
    }
    let third = find_dot(subject, second + 1, len);
    Some(
        SubjectParts {
            domain: subject.substring_char(0, first).to_owned(),
            aggregate_type: subject.substring_char(first + 1, second).to_owned(),
            event_type: subject.substring_char(second + 1, third).to_owned(),
        },
    )
}

/// The point in time that a payload names under `timestamp`, where it names
/// one in RFC 3339.
pub open spec fn payload_time(payload: serde_json::Value) -> Option<Timestamp> {
    match json_text_at(payload, "timestamp"@) {
        Some(text) => rfc3339_millis(text),
        None => None,
    }
}

/// The record of a message. The subject gives the domain, the kind of
/// aggregate and the kind of event. The payload gives the rest, and where it
/// gives no identifier or no time in RFC 3339, `fallback_id` and `now` stand
/// in. A message whose subject has fewer than three parts, or whose payload
/// is not JSON, has no record.
pub open spec fn record_of_message(
    subject: Seq<char>,
    payload: Seq<u8>,
    fallback_id: Seq<char>,
    now: Timestamp,
) -> Option<EventRecord> {
    match (subject_parts(subject), parsed_json(payload)) {
        (Some(parts), Some(value)) => Some(
            EventRecord {
                event_id: match json_text_at(value, "event_id"@) {
                    Some(id) => id,
                    None => fallback_id,
                },
                timestamp: match payload_time(value) {
                    Some(moment) => moment,
                    None => now,
                },
                domain: parts.0,
                event_type: parts.2,
                aggregate_id: match json_text_at(value, "aggregate_id"@) {
                    Some(id) => id,
                    None => Seq::empty(),
                },
                aggregate_type: parts.1,
                correlation_id: json_text_at(value, "correlation_id"@),
                causation_id: json_text_at(value, "causation_id"@),
                payload: value,
            },
        ),
        _ => None,
    }
}

/// The view of an event that may be absent.
pub open spec fn record_of(event: Option<DomainEventReceived>) -> Option<EventRecord> {
    match event {
        Some(present) => Some(present@),
        None => None,
    }
}

/// Turns one message of the bus into an event record, with a given stand-in
/// identifier and a given present time.
pub fn event_from_message(subject: &str, payload: &[u8], fallback_id: String, now: Timestamp) -> (event:
    Option<DomainEventReceived>)
    ensures
        record_of(event) == record_of_message(subject@, payload@, fallback_id@, now),
{
    let parts = match parse_subject(subject) {
        Some(parts) => parts,
        None => {
            return None;
        },
    };
    let value = match parse_json(payload) {
        Some(value) => value,
        None => {
            return None;
        },
    };
    let event_id = match json_string_field(&value, "event_id") {
        Some(id) => id,
        None => fallback_id,
    };
    let timestamp = match json_string_field(&value, "timestamp") {
        Some(text) => match parse_rfc3339(text.as_str()) {
            Some(moment) => moment,
            None => now,
        },
        None => now,
    };
    let aggregate_id = match json_string_field(&value, "aggregate_id") {
        Some(id) => id,
        None => String::new(),
    };
    let correlation_id = json_string_field(&value, "correlation_id");
    let causation_id = json_string_field(&value, "causation_id");
    let event = DomainEventReceived {
        event_id,
        timestamp,
        domain: parts.domain,
        event_type: parts.event_type,
        aggregate_id,
        aggregate_type: parts.aggregate_type,
        correlation_id,
        causation_id,
        payload: value,
    };
    proof {
        let expected = record_of_message(subject@, payload@, fallback_id@, now)->Some_0;
        assert(event@.aggregate_id =~= expected.aggregate_id);
        assert(event@.correlation_id == expected.correlation_id);
        assert(event@.causation_id == expected.causation_id);
    }
    Some(event)
}

/// Turns one message of the bus into an event record. Where the payload
/// names no identifier, a fresh random one stands in; where it names no
/// time, the present time does.
pub fn receive_message(subject: &str, payload: &[u8]) -> (event: Option<DomainEventReceived>)
    ensures
        event is Some <==> subject_parts(subject@) is Some && parsed_json(payload@) is Some,
        exists|fallback_id: Seq<char>, now: Timestamp|
            record_of(event) == record_of_message(subject@, payload@, fallback_id, now),
{
    let fallback_id = random_uuid_text();
    let now = now_millis();
    let event = event_from_message(subject, payload, fallback_id, now);
    proof {
        assert(record_of(event) == record_of_message(subject@, payload@, fallback_id@, now));
    }
    event
}

/// The newest events of the stream, oldest first, up to a limit.
pub struct EventStore {
    events: VecDeque<DomainEventReceived>,
    max_events: usize,
}

impl View for EventStore {
    type V = Seq<DomainEventReceived>;

    closed spec fn view(&self) -> Seq<DomainEventReceived> {
        self.events@
    }
}

/// The store's contents after one more event: where the store holds as many
/// events as its limit or more, the oldest gives way; the new event comes
/// last.
pub open spec fn store_after_add(
    events: Seq<DomainEventReceived>,
    limit: nat,
    event: DomainEventReceived,
) -> Seq<DomainEventReceived> {
    if events.len() >= limit && events.len() > 0 {
        events.drop_first().push(event)
    } else {
        events.push(event)
    }
}

/// The events that are newer than `cutoff`, in stored order.
pub open spec fn newer_than(events: Seq<DomainEventReceived>, cutoff: Timestamp) -> Seq<
    DomainEventReceived,
>
    decreases events.len(),
{
    if events.len() == 0 {
        Seq::empty()
    } else if events.last().timestamp > cutoff {
        newer_than(events.drop_last(), cutoff).push(events.last())
    } else {
        newer_than(events.drop_last(), cutoff)
    }
}

impl EventStore {
    /// The number of events that the store keeps.
    pub closed spec fn limit(self) -> nat {
        self.max_events as nat
    }

    /// An empty store that keeps up to `max_events` events.
    pub fn new(max_events: usize) -> (store: Self)
        ensures
            store@ == Seq::<DomainEventReceived>::empty(),
            store.limit() == max_events,
    {
        EventStore { events: VecDeque::new(), max_events }
    }

    /// Stores an event as the newest. A full store drops its oldest event to
    /// make room.
    pub fn add_event(&mut self, event: DomainEventReceived)
        ensures
            final(self).limit() == old(self).limit(),
            final(self)@ == store_after_add(old(self)@, old(self).limit(), event),
    {
        if self.events.len() >= self.max_events {
            let _ = self.events.pop_front();
        }
        self.events.push_back(event);
        proof {
            assert(self@ =~= store_after_add(old(self)@, old(self).limit(), event));
        }
    }

    /// A copy of every stored event, oldest first.
    pub fn get_all_events(&self) -> (events: Vec<DomainEventReceived>)
        ensures
            events@ == self@,
    {
        let mut events: Vec<DomainEventReceived> = Vec::new();
        let mut i: usize = 0;
        while i < self.events.len()
            invariant
                i <= self.events@.len(),
                events@ == self.events@.take(i as int),
            decreases self.events@.len() - i,
        {
            events.push(copy_of(&self.events[i]));
            proof {
                assert(events@ =~= self.events@.take(i + 1));
            }
            i = i + 1;
        }
        proof {
            assert(self.events@.take(i as int) =~= self.events@);
        }
        events
    }

    /// A copy of every stored event that is newer than `cutoff`, oldest
    /// first.
    pub fn events_after(&self, cutoff: Timestamp) -> (events: Vec<DomainEventReceived>)
        ensures
            events@ == newer_than(self@, cutoff),
    {
        let mut events: Vec<DomainEventReceived> = Vec::new();
        let mut i: usize = 0;
        while i < self.events.len()
            invariant
                i <= self.events@.len(),
                events@ == newer_than(self.events@.take(i as int), cutoff),
            decreases self.events@.len() - i,
        {
            proof {
                assert(self.events@.take(i + 1).drop_last() =~= self.events@.take(i as int));
            }
            if self.events[i].timestamp > cutoff {
                events.push(copy_of(&self.events[i]));
            }
            i = i + 1;
        }
        proof {
            assert(self.events@.take(i as int) =~= self.events@);
        }
        events
    }

    /// A copy of every stored event of the last `seconds` seconds, oldest
    /// first. The present time is read off the clock, so the contract holds
    /// of whatever time that was.
    pub fn get_recent_events(&self, seconds: u64) -> (events: Vec<DomainEventReceived>)
        ensures
            exists|now: Timestamp| events@ == newer_than(self@, seconds_before(now, seconds)),
    {
        let now = now_millis();
        let events = self.events_after(cutoff_before(now, seconds));
        proof {
            assert(events@ == newer_than(self@, seconds_before(now, seconds)));
        }
        events
    }
}

/// An equal copy of an event.
pub fn copy_of(event: &DomainEventReceived) -> (copy: DomainEventReceived)
    ensures
        copy == *event,
{
    DomainEventReceived {
        event_id: event.event_id.clone(),
        timestamp: event.timestamp,
        domain: event.domain.clone(),
        event_type: event.event_type.clone(),
        aggregate_id: event.aggregate_id.clone(),
        aggregate_type: event.aggregate_type.clone(),
        correlation_id: copy_of_text(&event.correlation_id),
        causation_id: copy_of_text(&event.causation_id),
        payload: event.payload.clone(),
    }
}

/// An equal copy of a text that may be absent.
fn copy_of_text(text: &Option<String>) -> (copy: Option<String>)
    ensures
        copy == *text,
{
    match text {
        Some(present) => Some(present.clone()),
        None => None,
    }
}

/// A request to the view of the event stream.
#[derive(Debug, Clone, PartialEq, Eq)]
pub enum EventVisualizationCommand {
    /// Focus on one event.
    FocusEvent(String),
    /// Show the events of one correlation.
    ShowCorrelation(String),
    /// Show the events of one domain only.
    FilterByDomain(String),
    /// Show every event again.
    ClearFilters,
    /// Pause or resume the stream.
    TogglePause,
}

/// The number of events that one tick takes from the stream, so that a
/// burst does not hold up the frame.
pub const EVENTS_PER_FRAME: usize = 10;

/// Which event caused which: one entry for each cause and effect, in the
/// order in which they were recorded.
pub struct EventFlowGraph {
    edges: Vec<(String, String)>,
}

/// The effects that `edges` records for the cause `event_id`, in recorded
/// order.
pub open spec fn effects_of(edges: Seq<(Seq<char>, Seq<char>)>, event_id: Seq<char>) -> Seq<
    Seq<char>,
>
    decreases edges.len(),
{
    if edges.len() == 0 {
        Seq::empty()
    } else if edges.last().0 == event_id {
        effects_of(edges.drop_last(), event_id).push(edges.last().1)
    } else {
        effects_of(edges.drop_last(), event_id)
    }
}

/// The characters of each text.
pub open spec fn texts_of(texts: Seq<String>) -> Seq<Seq<char>> {
    Seq::new(texts.len(), |i: int| texts[i]@)
}

impl View for EventFlowGraph {
    type V = Seq<(Seq<char>, Seq<char>)>;

    closed spec fn view(&self) -> Seq<(Seq<char>, Seq<char>)> {
        Seq::new(self.edges@.len(), |i: int| (self.edges@[i].0@, self.edges@[i].1@))
    }
}

impl EventFlowGraph {
    /// A graph without entries.
    pub fn new() -> (graph: Self)
        ensures
            graph@ == Seq::<(Seq<char>, Seq<char>)>::empty(),
    {
        let graph = EventFlowGraph { edges: Vec::new() };
        assert(graph@ =~= Seq::<(Seq<char>, Seq<char>)>::empty());
        graph
    }

    /// Records that the event `from` caused the event `to`.
    pub fn add_edge(&mut self, from: String, to: String)
        ensures
            final(self)@ == old(self)@.push((from@, to@)),
    {
        self.edges.push((from, to));
        assert(self@ =~= old(self)@.push((from@, to@)));
    }

    /// The events that `event_id` caused, in recorded order.
    pub fn get_connected(&self, event_id: &String) -> (effects: Vec<String>)
        ensures
            texts_of(effects@) == effects_of(self@, event_id@),
    {
        let mut effects: Vec<String> = Vec::new();
        let mut i: usize = 0;
        while i < self.edges.len()
            invariant
                i <= self.edges@.len(),
                texts_of(effects@) == effects_of(self@.take(i as int), event_id@),
            decreases self.edges@.len() - i,
        {
            proof {
                assert(self@.take(i + 1).drop_last() =~= self@.take(i as int));
                assert(self@.take(i + 1).last() == (self.edges@[i as int].0@, self.edges@[i as int].1@));
            }
            let ghost before = effects@;
            if self.edges[i].0 == *event_id {
                effects.push(self.edges[i].1.clone());
                proof {
                    assert(texts_of(effects@) =~= texts_of(before).push(self.edges@[i as int].1@));
                }
            }
            i = i + 1;
        }
        proof {
            assert(self@.take(i as int) =~= self@);
        }
        effects
    }
}

/// Takes one event of the stream in: where the event names its cause, the
/// graph records the cause and the effect, and the store keeps the event as
/// its newest.
pub fn process_incoming_event(
    store: &mut EventStore,
    graph: &mut EventFlowGraph,
    event: DomainEventReceived,
)
    ensures
        final(store).limit() == old(store).limit(),
        final(store)@ == store_after_add(old(store)@, old(store).limit(), event),
        final(graph)@ == match event.causation_id {
            Some(cause) => old(graph)@.push((cause@, event.event_id@)),
            None => old(graph)@,
        },
{
    match &event.causation_id {
        Some(cause) => {
            graph.add_edge(cause.clone(), event.event_id.clone());
        },
        None => {},
    }
    store.add_event(event);
}

/// What the view holds of one event.
#[derive(Debug, Clone, PartialEq, Eq)]
pub struct EventVisualRef {
    pub entity: EntityId,
    pub event_id: String,
    pub timestamp: Timestamp,
}

/// What the view holds of one connection between two events.
#[derive(Debug, Clone, PartialEq, Eq)]
pub struct ConnectionRef {
    pub entity: EntityId,
    pub from_event: String,
    pub to_event: String,
}

/// The entities that a cleanup despawns.
#[derive(Debug, Clone, PartialEq, Eq)]
pub struct CleanupPlan {
    /// The entities of the events that are too old, in view order.
    pub events: Vec<EntityId>,
    /// The entities of the connections that have lost an end, in view order.
    pub connections: Vec<EntityId>,
}

/// The entities of the events that are older than `cutoff`, in view order.
pub open spec fn expired_entities(events: Seq<EventVisualRef>, cutoff: Timestamp) -> Seq<EntityId>
    decreases events.len(),
{
    if events.len() == 0 {
        Seq::empty()
    } else if events.last().timestamp < cutoff {
        expired_entities(events.drop_last(), cutoff).push(events.last().entity)
    } else {
        expired_entities(events.drop_last(), cutoff)
    }
}

/// Whether some event older than `cutoff` has the identifier `event_id`.
pub open spec fn is_expired(events: Seq<EventVisualRef>, cutoff: Timestamp, event_id: Seq<char>) -> bool {
    exists|i: int|
        0 <= i < events.len() && (#[trigger] events[i]).timestamp < cutoff && events[i].event_id@
            == event_id
}

/// The entities of the connections of which an end is older than `cutoff`,
/// in view order.
pub open spec fn orphaned_entities(
    connections: Seq<ConnectionRef>,
    events: Seq<EventVisualRef>,
    cutoff: Timestamp,
) -> Seq<EntityId>
    decreases connections.len(),
{
    if connections.len() == 0 {
        Seq::empty()
    } else if is_expired(events, cutoff, connections.last().from_event@) || is_expired(
        events,
        cutoff,
        connections.last().to_event@,
    ) {
        orphaned_entities(connections.drop_last(), events, cutoff).push(connections.last().entity)
    } else {
        orphaned_entities(connections.drop_last(), events, cutoff)
    }
}

fn expired(events: &Vec<EventVisualRef>, cutoff: Timestamp, event_id: &String) -> (found: bool)
    ensures
        found == is_expired(events@, cutoff, event_id@),
{
    let mut i: usize = 0;
    while i < events.len()
        invariant
            i <= events@.len(),
            forall|j: int|
                0 <= j < i ==> !((#[trigger] events@[j]).timestamp < cutoff && events@[j].event_id@
                    == event_id@),
        decreases events@.len() - i,
    {
        if events[i].timestamp < cutoff && events[i].event_id == *event_id {
            return true;
        }
        i = i + 1;
    }
    false
}

/// Decides what leaves the view when everything older than `cutoff` goes:
/// each event that is older, and each connection that starts or ends at
/// such an event.
pub fn plan_cleanup(
    events: &Vec<EventVisualRef>,
    connections: &Vec<ConnectionRef>,
    cutoff: Timestamp,
) -> (plan: CleanupPlan)
    ensures
        plan.events@ == expired_entities(events@, cutoff),
        plan.connections@ == orphaned_entities(connections@, events@, cutoff),
{
    let mut gone: Vec<EntityId> = Vec::new();
    let mut i: usize = 0;
    while i < events.len()
        invariant
            i <= events@.len(),
            gone@ == expired_entities(events@.take(i as int), cutoff),
        decreases events@.len() - i,
    {
        proof {
            assert(events@.take(i + 1).drop_last() =~= events@.take(i as int));
        }
        if events[i].timestamp < cutoff {
            gone.push(events[i].entity);
        }
        i = i + 1;
    }
    proof {
        assert(events@.take(i as int) =~= events@);
    }
    let mut orphaned: Vec<EntityId> = Vec::new();
    let mut k: usize = 0;
    while k < connections.len()
        invariant
            k <= connections@.len(),
            orphaned@ == orphaned_entities(connections@.take(k as int), events@, cutoff),
        decreases connections@.len() - k,
    {
        proof {
            assert(connections@.take(k + 1).drop_last() =~= connections@.take(k as int));
        }
        if expired(events, cutoff, &connections[k].from_event) || expired(
            events,
            cutoff,
            &connections[k].to_event,
        ) {
            orphaned.push(connections[k].entity);
        }
        k = k + 1;
    }
    proof {
        assert(connections@.take(k as int) =~= connections@);
    }
    CleanupPlan { events: gone, connections: orphaned }
}

/// Decides what leaves the view under a retention of `retention_seconds`.
/// The present time is read off the clock, so the contract holds of whatever
/// time that was.
pub fn cleanup_old_events(
    events: &Vec<EventVisualRef>,
    connections: &Vec<ConnectionRef>,
    retention_seconds: u64,
) -> (plan: CleanupPlan)
    ensures
        exists|now: Timestamp|
            {
                &&& plan.events@ == expired_entities(events@, seconds_before(now, retention_seconds))
                &&& plan.connections@ == orphaned_entities(
                    connections@,
                    events@,
                    seconds_before(now, retention_seconds),
                )
            },
{
    let now = now_millis();
    let plan = plan_cleanup(events, connections, cutoff_before(now, retention_seconds));
    proof {
        assert(plan.events@ == expired_entities(events@, seconds_before(now, retention_seconds)));
    }
    plan
}

} // verus!
