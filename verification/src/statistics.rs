//! Statistics over the newest events of the stream, made afresh from the
//! store at most once a second.

use vstd::prelude::*;
use crate::event_stream::{newer_than, DomainEventReceived, EventStore};
use crate::tally::{counted, entries_of, top_of, Tally};
use crate::time::{cutoff_before, now_millis, seconds_before, Timestamp};

verus! {

/// The statistics are made afresh when they are this many milliseconds old.
pub const REFRESH_MILLIS: i64 = 1000;

/// The statistics cover the events of this many seconds.
pub const WINDOW_SECONDS: u64 = 300;

/// The rate of events is taken over this many seconds.
pub const RATE_SECONDS: u64 = 60;

/// What the statistics panel shows.
#[derive(Debug)]
pub struct EventStatistics {
    /// The number of events of the window.
    pub total_events: u64,
    /// The events of the window of each domain.
    pub events_by_domain: Tally,
    /// The events of the window of each kind.
    pub events_by_type: Tally,
    /// The number of events of the last `RATE_SECONDS` seconds.
    pub recent_events: u64,
    /// The number of causes that events of the window name.
    pub causation_chains: u32,
    /// The number of correlations that events of the window name.
    pub correlation_groups: u32,
    /// The domain with the most events, with their number.
    pub busiest_domain: Option<(String, u64)>,
    /// The kind of event that is most frequent, with its number.
    pub most_common_event: Option<(String, u64)>,
    /// When the statistics were last made.
    pub last_update: Timestamp,
}

/// The entries after counting each of `names` in turn.
pub open spec fn tallied(names: Seq<Seq<char>>) -> Seq<(Seq<char>, u64)>
    decreases names.len(),
{
    if names.len() == 0 {
        Seq::empty()
    } else {
        counted(tallied(names.drop_last()), names.last())
    }
}

/// The domains of the events, in order.
pub open spec fn domains_of(events: Seq<DomainEventReceived>) -> Seq<Seq<char>> {
    Seq::new(events.len(), |i: int| events[i].domain@)
}

/// The kinds of the events, in order.
pub open spec fn kinds_of(events: Seq<DomainEventReceived>) -> Seq<Seq<char>> {
    Seq::new(events.len(), |i: int| events[i].event_type@)
}

/// The causes that the events name, in order.
pub open spec fn causes_of(events: Seq<DomainEventReceived>) -> Seq<Seq<char>>
    decreases events.len(),
{
    if events.len() == 0 {
        Seq::empty()
    } else {
        match events.last().causation_id {
            Some(cause) => causes_of(events.drop_last()).push(cause@),
            None => causes_of(events.drop_last()),
        }
    }
}

/// The correlations that the events name, in order.
pub open spec fn correlations_of(events: Seq<DomainEventReceived>) -> Seq<Seq<char>>
    decreases events.len(),
{
    if events.len() == 0 {
        Seq::empty()
    } else {
        match events.last().correlation_id {
            Some(correlation) => correlations_of(events.drop_last()).push(correlation@),
            None => correlations_of(events.drop_last()),
        }
    }
}

/// The entry with the largest count, and of several the one seen first.
pub open spec fn leader_of(entries: Seq<(Seq<char>, u64)>) -> Option<(Seq<char>, u64)> {
    if top_of(entries, 1).len() > 0 {
        Some(top_of(entries, 1)[0])
    } else {
        None
    }
}

/// A number of things as 32 bits, held at the largest such number.
pub open spec fn capped_u32(n: nat) -> u32 {
    if n <= u32::MAX {
        n as u32
    } else {
        u32::MAX
    }
}

/// Whether statistics made at `last_update` are due to be made afresh at
/// `now`.
pub open spec fn is_due(last_update: Timestamp, now: Timestamp) -> bool {
    now - last_update >= REFRESH_MILLIS
}

/// An entry with its name as a sequence of characters.
pub open spec fn entry_of(entry: Option<(String, u64)>) -> Option<(Seq<char>, u64)> {
    match entry {
        Some(present) => Some((present.0@, present.1)),
        None => None,
    }
}

impl EventStatistics {
    /// Statistics over nothing, made at `now`.
    pub fn new(now: Timestamp) -> (statistics: Self)
        ensures
            statistics.total_events == 0,
            statistics.events_by_domain@.len() == 0,
            statistics.events_by_type@.len() == 0,
            statistics.recent_events == 0,
            statistics.causation_chains == 0,
            statistics.correlation_groups == 0,
            statistics.busiest_domain is None,
            statistics.most_common_event is None,
            statistics.last_update == now,
    {
        EventStatistics {
            total_events: 0,
            events_by_domain: Tally::new(),
            events_by_type: Tally::new(),
            recent_events: 0,
            causation_chains: 0,
            correlation_groups: 0,
            busiest_domain: None,
            most_common_event: None,
            last_update: now,
        }
    }

    /// Whether these are the statistics over `events` with `recent` events
    /// in the last `RATE_SECONDS` seconds.
    pub open spec fn describes(self, events: Seq<DomainEventReceived>, recent: nat) -> bool {
        &&& self.total_events == events.len()
        &&& self.events_by_domain@ == tallied(domains_of(events))
        &&& self.events_by_type@ == tallied(kinds_of(events))
        &&& self.recent_events == recent
        &&& self.causation_chains == capped_u32(tallied(causes_of(events)).len())
        &&& self.correlation_groups == capped_u32(tallied(correlations_of(events)).len())
        &&& entry_of(self.busiest_domain) == leader_of(tallied(domains_of(events)))
        &&& entry_of(self.most_common_event) == leader_of(tallied(kinds_of(events)))
    }
}

fn leader(tally: &Tally) -> (first: Option<(String, u64)>)
    ensures
        entry_of(first) == leader_of(tally@),
{
    let mut leaders = tally.top(1);
    let ghost ranking = entries_of(leaders@);
    let first = leaders.pop();
    proof {
        if ranking.len() > 0 {
            assert(ranking[0] == (first->Some_0.0@, first->Some_0.1));
        }
    }
    first
}

fn capped(n: usize) -> (capped: u32)
    ensures
        capped == capped_u32(n as nat),
{
    if n <= 0xffff_ffff {
        n as u32
    } else {
        0xffff_ffff
    }
}

/// Makes the statistics afresh from the store, unless they are less than a
/// second old, and tells whether it did. The statistics cover the stored
/// events of the last `WINDOW_SECONDS` seconds before `now`.
pub fn update_statistics_at(
    store: &EventStore,
    statistics: &mut EventStatistics,
    now: Timestamp,
) -> (refreshed: bool)
    ensures
        refreshed == is_due(old(statistics).last_update, now),
        !refreshed ==> *final(statistics) == *old(statistics),
        refreshed ==> final(statistics).last_update == now && final(statistics).describes(
            newer_than(store@, seconds_before(now, WINDOW_SECONDS)),
            newer_than(
                newer_than(store@, seconds_before(now, WINDOW_SECONDS)),
                seconds_before(now, RATE_SECONDS),
            ).len(),
        ),
{
    let age: i128 = (now as i128) - (statistics.last_update as i128);
    if age < REFRESH_MILLIS as i128 {
        return false;
    }
    let events = store.events_after(cutoff_before(now, WINDOW_SECONDS));
    let minute_ago = cutoff_before(now, RATE_SECONDS);
    let mut by_domain = Tally::new();
    let mut by_type = Tally::new();
    let mut causes = Tally::new();
    let mut correlations = Tally::new();
    let mut recent: u64 = 0;
    let mut i: usize = 0;
    while i < events.len()
        invariant
            i <= events@.len(),
            by_domain@ == tallied(domains_of(events@.take(i as int))),
            by_type@ == tallied(kinds_of(events@.take(i as int))),
            causes@ == tallied(causes_of(events@.take(i as int))),
            correlations@ == tallied(correlations_of(events@.take(i as int))),
            recent == newer_than(events@.take(i as int), minute_ago).len(),
            recent <= i,
        decreases events@.len() - i,
    {
        proof {
            let next = events@.take(i + 1);
            assert(next.drop_last() =~= events@.take(i as int));
            assert(next.last() == events@[i as int]);
            assert(domains_of(next).drop_last() =~= domains_of(events@.take(i as int)));
            assert(kinds_of(next).drop_last() =~= kinds_of(events@.take(i as int)));
            assert(domains_of(next).last() == events@[i as int].domain@);
            assert(kinds_of(next).last() == events@[i as int].event_type@);
            match events@[i as int].causation_id {
                Some(cause) => {
                    assert(causes_of(next).drop_last() =~= causes_of(events@.take(i as int)));
                },
                None => {},
            }
            match events@[i as int].correlation_id {
                Some(correlation) => {
                    assert(correlations_of(next).drop_last() =~= correlations_of(
                        events@.take(i as int),
                    ));
                },
                None => {},
            }
        }
        by_domain.add(&events[i].domain);
        by_type.add(&events[i].event_type);
        match &events[i].causation_id {
            Some(cause) => {
                causes.add(cause);
            },
            None => {},
        }
        match &events[i].correlation_id {
            Some(correlation) => {
                correlations.add(correlation);
            },
            None => {},
        }
        if events[i].timestamp > minute_ago {
            recent = recent + 1;
        }
        i = i + 1;
    }
    proof {
        assert(events@.take(i as int) =~= events@);
    }
    let busiest_domain = leader(&by_domain);
    let most_common_event = leader(&by_type);
    statistics.total_events = events.len() as u64;
    statistics.recent_events = recent;
    statistics.causation_chains = capped(causes.len());
    statistics.correlation_groups = capped(correlations.len());
    statistics.busiest_domain = busiest_domain;
    statistics.most_common_event = most_common_event;
    statistics.events_by_domain = by_domain;
    statistics.events_by_type = by_type;
    statistics.last_update = now;
    true
}

/// Makes the statistics afresh from the store, unless they are less than a
/// second old, and tells whether it did. The present time is read off the
/// clock, so the contract holds of whatever time that was.
pub fn update_statistics(store: &EventStore, statistics: &mut EventStatistics) -> (refreshed:
    bool)
    ensures
        exists|now: Timestamp|
            {
                &&& refreshed == is_due(old(statistics).last_update, now)
                &&& !refreshed ==> *final(statistics) == *old(statistics)
                &&& refreshed ==> final(statistics).last_update == now && final(statistics).describes(
                    newer_than(store@, seconds_before(now, WINDOW_SECONDS)),
                    newer_than(
                        newer_than(store@, seconds_before(now, WINDOW_SECONDS)),
                        seconds_before(now, RATE_SECONDS),
                    ).len(),
                )
            },
{
    let now = now_millis();
    let refreshed = update_statistics_at(store, statistics, now);
    proof {
        assert(refreshed == is_due(old(statistics).last_update, now));
    }
    refreshed
}

} // verus!
