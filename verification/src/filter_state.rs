//! The state of the filter panel, and the running statistics next to it.

use vstd::prelude::*;
use crate::event_stream::DomainEventReceived;
use crate::tally::{capped_sum, counted, top_of, entries_of, Tally};
use crate::time::{now_millis, Timestamp};

verus! {

/// The span of time of which events are shown.
#[derive(Debug, Clone, Copy, PartialEq, Eq, Structural)]
pub enum TimeRange {
    LastMinute,
    LastFiveMinutes,
    LastFifteenMinutes,
    LastHour,
    LastDay,
    /// From `start` to `end`, both included.
    Custom { start: Timestamp, end: Timestamp },
}

impl Default for TimeRange {
    /// The last five minutes.
    fn default() -> (range: Self)
        ensures
            range == TimeRange::LastFiveMinutes,
    {
        TimeRange::LastFiveMinutes
    }
}

impl TimeRange {
    /// The length of the range in milliseconds.
    pub open spec fn span(self) -> int {
        match self {
            TimeRange::LastMinute => 60_000,
            TimeRange::LastFiveMinutes => 300_000,
            TimeRange::LastFifteenMinutes => 900_000,
            TimeRange::LastHour => 3_600_000,
            TimeRange::LastDay => 86_400_000,
            TimeRange::Custom { start, end } => end - start,
        }
    }

    /// Whether `timestamp` lies in the range when the present time is `now`:
    /// between the ends of a custom range, and no longer ago than the span
    /// of any other.
    pub open spec fn includes(self, timestamp: Timestamp, now: Timestamp) -> bool {
        match self {
            TimeRange::Custom { start, end } => start <= timestamp <= end,
            _ => now - timestamp <= self.span(),
        }
    }

    /// The length of the range in milliseconds, held within what a number of
    /// milliseconds can tell.
    pub fn to_duration(&self) -> (millis: i64)
        ensures
            i64::MIN <= self.span() <= i64::MAX ==> millis == self.span(),
            self.span() > i64::MAX ==> millis == i64::MAX,
            self.span() < i64::MIN ==> millis == i64::MIN,
    {
        match self {
            TimeRange::LastMinute => 60_000,
            TimeRange::LastFiveMinutes => 300_000,
            TimeRange::LastFifteenMinutes => 900_000,
            TimeRange::LastHour => 3_600_000,
            TimeRange::LastDay => 86_400_000,
            TimeRange::Custom { start, end } => {
                let wide: i128 = (*end as i128) - (*start as i128);
                if wide > i64::MAX as i128 {
                    i64::MAX
                } else if wide < i64::MIN as i128 {
                    i64::MIN
                } else {
                    wide as i64
                }
            },
        }
    }

    /// Whether `timestamp` lies in the range when the present time is `now`.
    pub fn is_in_range_at(&self, timestamp: Timestamp, now: Timestamp) -> (inside: bool)
        ensures
            inside == self.includes(timestamp, now),
    {
        match self {
            TimeRange::Custom { start, end } => *start <= timestamp && timestamp <= *end,
            _ => {
                let ago: i128 = (now as i128) - (timestamp as i128);
                ago <= self.to_duration() as i128
            },
        }
    }

    /// Whether `timestamp` lies in the range now. The present time is read
    /// off the clock, so the contract holds of whatever time that was.
    pub fn is_in_range(&self, timestamp: Timestamp) -> (inside: bool)
        ensures
            exists|now: Timestamp| inside == self.includes(timestamp, now),
    {
        let now = now_millis();
        let inside = self.is_in_range_at(timestamp, now);
        proof {
            assert(inside == self.includes(timestamp, now));
        }
        inside
    }
}

/// What the filter panel is set to. A list of names that is empty excludes
/// nothing. The least rate of events is a binary32 number, held as its
/// bits.
#[derive(Debug, Clone, PartialEq, Eq)]
pub struct EventFilterState {
    pub domain_filters: Vec<String>,
    pub event_type_filters: Vec<String>,
    pub aggregate_type_filters: Vec<String>,
    pub time_range: TimeRange,
    pub search_query: String,
    pub only_correlated: bool,
    pub only_errors: bool,
    pub min_event_rate: Option<u32>,
    pub active_preset: Option<String>,
}

impl EventFilterState {
    /// Nothing is set: no names, the last five minutes, no search, no
    /// restriction, no least rate, no preset.
    pub open spec fn is_unset(self) -> bool {
        &&& self.domain_filters@.len() == 0
        &&& self.event_type_filters@.len() == 0
        &&& self.aggregate_type_filters@.len() == 0
        &&& self.time_range == TimeRange::LastFiveMinutes
        &&& self.search_query@.len() == 0
        &&& !self.only_correlated
        &&& !self.only_errors
        &&& self.min_event_rate is None
        &&& self.active_preset is None
    }

    /// The state differs from one in which nothing is set in at most the
    /// least rate, the two restrictions and the range.
    pub open spec fn is_preset(
        self,
        min_event_rate: Option<u32>,
        only_errors: bool,
        only_correlated: bool,
        time_range: TimeRange,
    ) -> bool {
        &&& self.domain_filters@.len() == 0
        &&& self.event_type_filters@.len() == 0
        &&& self.aggregate_type_filters@.len() == 0
        &&& self.time_range == time_range
        &&& self.search_query@.len() == 0
        &&& self.only_correlated == only_correlated
        &&& self.only_errors == only_errors
        &&& self.min_event_rate == min_event_rate
        &&& self.active_preset is None
    }
}

impl Default for EventFilterState {
    /// The state in which nothing is set.
    fn default() -> (state: Self)
        ensures
            state.is_unset(),
    {
        EventFilterState {
            domain_filters: Vec::new(),
            event_type_filters: Vec::new(),
            aggregate_type_filters: Vec::new(),
            time_range: TimeRange::LastFiveMinutes,
            search_query: String::new(),
            only_correlated: false,
            only_errors: false,
            min_event_rate: None,
            active_preset: None,
        }
    }
}

/// What the view shows of one event.
#[derive(Debug, Clone, PartialEq, Eq)]
pub struct EventVisual {
    pub event_id: String,
    pub domain: String,
    pub event_type: String,
    pub timestamp: Timestamp,
    pub correlation_id: Option<String>,
}

/// Whether `name` is one of `names`.
pub open spec fn is_listed(names: Seq<String>, name: Seq<char>) -> bool {
    exists|i: int| 0 <= i < names.len() && (#[trigger] names[i])@ == name
}

/// Whether the panel shows an event when the present time is `now`: its
/// domain and its kind are among the names listed, where any are listed; it
/// lies in the range of time; and it names a correlation, where only such
/// events are wanted.
pub open spec fn is_shown(state: EventFilterState, visual: EventVisual, now: Timestamp) -> bool {
    &&& state.domain_filters@.len() == 0 || is_listed(state.domain_filters@, visual.domain@)
    &&& state.event_type_filters@.len() == 0 || is_listed(
        state.event_type_filters@,
        visual.event_type@,
    )
    &&& state.time_range.includes(visual.timestamp, now)
    &&& !state.only_correlated || visual.correlation_id is Some
}

fn listed(names: &Vec<String>, name: &String) -> (found: bool)
    ensures
        found == is_listed(names@, name@),
{
    let mut i: usize = 0;
    while i < names.len()
        invariant
            i <= names@.len(),
            forall|j: int| 0 <= j < i ==> (#[trigger] names@[j])@ != name@,
        decreases names@.len() - i,
    {
        if names[i] == *name {
            return true;
        }
        i = i + 1;
    }
    false
}

/// Decides whether the panel shows an event when the present time is `now`.
pub fn apply_filters_at(state: &EventFilterState, visual: &EventVisual, now: Timestamp) -> (shown:
    bool)
    ensures
        shown == is_shown(*state, *visual, now),
{
    let mut shown = true;
    if state.domain_filters.len() > 0 {
        shown = shown && listed(&state.domain_filters, &visual.domain);
    }
    if state.event_type_filters.len() > 0 {
        shown = shown && listed(&state.event_type_filters, &visual.event_type);
    }
    shown = shown && state.time_range.is_in_range_at(visual.timestamp, now);
    if state.only_correlated {
        shown = shown && visual.correlation_id.is_some();
    }
    shown
}

/// Decides whether the panel shows an event now. The present time is read
/// off the clock, so the contract holds of whatever time that was.
pub fn apply_filters(state: &EventFilterState, visual: &EventVisual) -> (shown: bool)
    ensures
        exists|now: Timestamp| shown == is_shown(*state, *visual, now),
{
    let now = now_millis();
    let shown = apply_filters_at(state, visual, now);
    proof {
        assert(shown == is_shown(*state, *visual, now));
    }
    shown
}

/// The bits of the binary32 number 10.
pub const TEN: u32 = 0x4120_0000;

/// Named settings of the filter panel.
#[derive(Debug, Clone, PartialEq, Eq)]
pub struct FilterPresets {
    presets: Vec<(String, EventFilterState)>,
}

impl View for FilterPresets {
    type V = Seq<(String, EventFilterState)>;

    closed spec fn view(&self) -> Seq<(String, EventFilterState)> {
        self.presets@
    }
}

impl Default for FilterPresets {
    /// No presets.
    fn default() -> (presets: Self)
        ensures
            presets@.len() == 0,
    {
        FilterPresets { presets: Vec::new() }
    }
}

impl FilterPresets {
    /// The four presets that come with the panel: for high traffic, a least
    /// rate of ten events a second; for errors only; for correlated events
    /// only; and for recent activity, the last minute.
    pub fn new() -> (presets: Self)
        ensures
            presets@.len() == 4,
            presets@[0].0@ == "High Traffic"@,
            presets@[0].1.is_preset(Some(TEN), false, false, TimeRange::LastFiveMinutes),
            presets@[1].0@ == "Errors Only"@,
            presets@[1].1.is_preset(None, true, false, TimeRange::LastFiveMinutes),
            presets@[2].0@ == "Correlated Events"@,
            presets@[2].1.is_preset(None, false, true, TimeRange::LastFiveMinutes),
            presets@[3].0@ == "Recent Activity"@,
            presets@[3].1.is_preset(None, false, false, TimeRange::LastMinute),
    {
        let mut presets: Vec<(String, EventFilterState)> = Vec::new();
        let mut high_traffic = EventFilterState::default();
        high_traffic.min_event_rate = Some(TEN);
        presets.push(("High Traffic".to_owned(), high_traffic));
        let mut errors_only = EventFilterState::default();
        errors_only.only_errors = true;
        presets.push(("Errors Only".to_owned(), errors_only));
        let mut correlated = EventFilterState::default();
        correlated.only_correlated = true;
        presets.push(("Correlated Events".to_owned(), correlated));
        let mut recent = EventFilterState::default();
        recent.time_range = TimeRange::LastMinute;
        presets.push(("Recent Activity".to_owned(), recent));
        FilterPresets { presets }
    }

    /// The first preset of the given name, if there is one.
    pub fn get(&self, name: &String) -> (preset: Option<&EventFilterState>)
        ensures
            preset is Some <==> exists|i: int|
                0 <= i < self@.len() && (#[trigger] self@[i]).0@ == name@,
            preset matches Some(found) ==> exists|i: int|
                0 <= i < self@.len() && (#[trigger] self@[i]).0@ == name@ && *found == self@[i].1
                    && forall|j: int| 0 <= j < i ==> (#[trigger] self@[j]).0@ != name@,
    {
        let mut i: usize = 0;
        while i < self.presets.len()
            invariant
                i <= self.presets@.len(),
                forall|j: int| 0 <= j < i ==> (#[trigger] self@[j]).0@ != name@,
            decreases self.presets@.len() - i,
        {
            if self.presets[i].0 == *name {
                assert(self@[i as int].0@ == name@);
                return Some(&self.presets[i].1);
            }
            i = i + 1;
        }
        None
    }

    /// The names of the presets, in their order.
    pub fn list(&self) -> (names: Vec<String>)
        ensures
            names@.len() == self@.len(),
            forall|i: int| 0 <= i < names@.len() ==> #[trigger] names@[i] == self@[i].0,
    {
        let mut names: Vec<String> = Vec::new();
        let mut i: usize = 0;
        while i < self.presets.len()
            invariant
                i <= self.presets@.len(),
                names@.len() == i,
                forall|j: int| 0 <= j < i ==> #[trigger] names@[j] == self@[j].0,
            decreases self.presets@.len() - i,
        {
            names.push(self.presets[i].0.clone());
            i = i + 1;
        }
        names
    }
}

/// The most readings of the rate that the statistics keep.
pub const RATE_HISTORY: usize = 60;

/// Running counts over the stream of events.
#[derive(Debug)]
pub struct EventStatistics {
    /// The number of events seen.
    pub total_events: u64,
    /// The events seen of each domain.
    pub events_by_domain: Tally,
    /// The events seen of each kind.
    pub events_by_type: Tally,
    /// The events seen of each kind of aggregate.
    pub events_by_aggregate: Tally,
    /// The newest readings of the rate of events, oldest first: when each
    /// was taken and the rate, a binary32 number held as its bits.
    pub event_rate_history: Vec<(Timestamp, u32)>,
    /// The number of errors seen.
    pub error_count: u64,
    /// The identifiers of the events of each correlation, in turn of
    /// arrival, by the correlation's identifier.
    pub correlation_chains: Vec<(String, Vec<String>)>,
    /// When an event was last counted.
    pub last_update: Timestamp,
}

/// The chains with their texts as sequences of characters.
pub open spec fn chains_of(chains: Seq<(String, Vec<String>)>) -> Seq<(Seq<char>, Seq<Seq<char>>)> {
    Seq::new(
        chains.len(),
        |i: int| (chains[i].0@, Seq::new(chains[i].1@.len(), |k: int| chains[i].1@[k]@)),
    )
}

/// The chains after the event `event_id` was added to the correlation
/// `correlation_id`: it comes last in the first chain of that correlation,
/// or in a new last chain where the correlation has none.
pub open spec fn chained(
    chains: Seq<(Seq<char>, Seq<Seq<char>>)>,
    correlation_id: Seq<char>,
    event_id: Seq<char>,
) -> Seq<(Seq<char>, Seq<Seq<char>>)>
    decreases chains.len(),
{
    if chains.len() == 0 {
        seq![(correlation_id, seq![event_id])]
    } else if chains.first().0 == correlation_id {
        chains.update(0, (correlation_id, chains.first().1.push(event_id)))
    } else {
        seq![chains.first()] + chained(chains.drop_first(), correlation_id, event_id)
    }
}

/// The readings after one more: the new one comes last, and the oldest give
/// way until no more than `RATE_HISTORY` are kept.
pub open spec fn with_reading(history: Seq<(Timestamp, u32)>, reading: (Timestamp, u32)) -> Seq<
    (Timestamp, u32),
> {
    let all = history.push(reading);
    if all.len() > RATE_HISTORY {
        all.skip(all.len() - RATE_HISTORY)
    } else {
        all
    }
}

impl EventStatistics {
    /// Statistics that have seen nothing, last touched at `now`.
    pub fn new(now: Timestamp) -> (statistics: Self)
        ensures
            statistics.total_events == 0,
            statistics.events_by_domain@.len() == 0,
            statistics.events_by_type@.len() == 0,
            statistics.events_by_aggregate@.len() == 0,
            statistics.event_rate_history@.len() == 0,
            statistics.error_count == 0,
            statistics.correlation_chains@.len() == 0,
            statistics.last_update == now,
    {
        EventStatistics {
            total_events: 0,
            events_by_domain: Tally::new(),
            events_by_type: Tally::new(),
            events_by_aggregate: Tally::new(),
            event_rate_history: Vec::new(),
            error_count: 0,
            correlation_chains: Vec::new(),
            last_update: now,
        }
    }

    /// Counts one event at the time `now`: once in all, once for its
    /// domain, its kind and the kind of its aggregate, and as the newest of
    /// its correlation, where it names one.
    pub fn update_at(&mut self, event: &DomainEventReceived, now: Timestamp)
        ensures
            final(self).total_events == capped_sum(old(self).total_events, 1),
            final(self).events_by_domain@ == counted(old(self).events_by_domain@, event.domain@),
            final(self).events_by_type@ == counted(old(self).events_by_type@, event.event_type@),
            final(self).events_by_aggregate@ == counted(
                old(self).events_by_aggregate@,
                event.aggregate_type@,
            ),
            chains_of(final(self).correlation_chains@) == match event.correlation_id {
                Some(correlation) => chained(
                    chains_of(old(self).correlation_chains@),
                    correlation@,
                    event.event_id@,
                ),
                None => chains_of(old(self).correlation_chains@),
            },
            final(self).last_update == now,
            final(self).error_count == old(self).error_count,
            final(self).event_rate_history == old(self).event_rate_history,
    {
        self.total_events = self.total_events.saturating_add(1);
        self.events_by_domain.add(&event.domain);
        self.events_by_type.add(&event.event_type);
        self.events_by_aggregate.add(&event.aggregate_type);
        match &event.correlation_id {
            Some(correlation) => {
                add_to_chain(&mut self.correlation_chains, correlation, &event.event_id);
            },
            None => {},
        }
        self.last_update = now;
    }

    /// Counts one event now. The present time is read off the clock, so
    /// nothing is said of when the statistics were last touched.
    pub fn update(&mut self, event: &DomainEventReceived)
        ensures
            final(self).total_events == capped_sum(old(self).total_events, 1),
            final(self).events_by_domain@ == counted(old(self).events_by_domain@, event.domain@),
            final(self).events_by_type@ == counted(old(self).events_by_type@, event.event_type@),
            final(self).events_by_aggregate@ == counted(
                old(self).events_by_aggregate@,
                event.aggregate_type@,
            ),
            chains_of(final(self).correlation_chains@) == match event.correlation_id {
                Some(correlation) => chained(
                    chains_of(old(self).correlation_chains@),
                    correlation@,
                    event.event_id@,
                ),
                None => chains_of(old(self).correlation_chains@),
            },
            final(self).error_count == old(self).error_count,
            final(self).event_rate_history == old(self).event_rate_history,
    {
        let now = now_millis();
        self.update_at(event, now);
    }

    /// The newest reading of the rate of events, and zero where none was
    /// taken.
    pub fn current_event_rate(&self) -> (rate: u32)
        ensures
            rate == if self.event_rate_history@.len() > 0 {
                self.event_rate_history@.last().1
            } else {
                0u32
            },
    {
        let len = self.event_rate_history.len();
        if len > 0 {
            self.event_rate_history[len - 1].1
        } else {
            0
        }
    }

    /// Keeps a reading of the rate of events as the newest.
    pub fn record_rate(&mut self, now: Timestamp, rate: u32)
        ensures
            final(self).event_rate_history@ == with_reading(
                old(self).event_rate_history@,
                (now, rate),
            ),
            final(self).total_events == old(self).total_events,
            final(self).events_by_domain == old(self).events_by_domain,
            final(self).events_by_type == old(self).events_by_type,
            final(self).events_by_aggregate == old(self).events_by_aggregate,
            final(self).error_count == old(self).error_count,
            final(self).correlation_chains == old(self).correlation_chains,
            final(self).last_update == old(self).last_update,
    {
        self.event_rate_history.push((now, rate));
        let ghost all = self.event_rate_history@;
        proof {
            assert(all.skip(0) =~= all);
        }
        while self.event_rate_history.len() > RATE_HISTORY
            invariant
                all == old(self).event_rate_history@.push((now, rate)),
                self.event_rate_history@.len() <= all.len(),
                self.event_rate_history@.len() >= RATE_HISTORY || self.event_rate_history@.len()
                    == all.len(),
                self.event_rate_history@ == all.skip(all.len() - self.event_rate_history@.len()),
                self.total_events == old(self).total_events,
                self.events_by_domain == old(self).events_by_domain,
                self.events_by_type == old(self).events_by_type,
                self.events_by_aggregate == old(self).events_by_aggregate,
                self.error_count == old(self).error_count,
                self.correlation_chains == old(self).correlation_chains,
                self.last_update == old(self).last_update,
            decreases self.event_rate_history@.len(),
        {
            let _ = self.event_rate_history.remove(0);
        }
        proof {
            assert(all.skip(0) =~= all);
        }
    }

    /// The `n` domains with the most events, most first, each with its
    /// count. Domains with equal counts come in the order of first sight.
    pub fn top_domains(&self, n: usize) -> (leaders: Vec<(String, u64)>)
        ensures
            entries_of(leaders@) == top_of(self.events_by_domain@, n as nat),
    {
        self.events_by_domain.top(n)
    }

    /// The `n` kinds of event with the most events, most first, each with
    /// its count. Kinds with equal counts come in the order of first sight.
    pub fn top_event_types(&self, n: usize) -> (leaders: Vec<(String, u64)>)
        ensures
            entries_of(leaders@) == top_of(self.events_by_type@, n as nat),
    {
        self.events_by_type.top(n)
    }
}

/// Adds an event to the chain of its correlation.
fn add_to_chain(chains: &mut Vec<(String, Vec<String>)>, correlation_id: &String, event_id: &String)
    ensures
        chains_of(final(chains)@) == chained(chains_of(old(chains)@), correlation_id@, event_id@),
{
    let mut i: usize = 0;
    while i < chains.len()
        invariant
            i <= chains@.len(),
            *chains == *old(chains),
            forall|j: int| 0 <= j < i ==> (#[trigger] chains@[j]).0@ != correlation_id@,
        decreases chains@.len() - i,
    {
        if chains[i].0 == *correlation_id {
            let ghost before = chains_of(chains@);
            let (name, mut members) = chains.remove(i);
            members.push(event_id.clone());
            chains.insert(i, (name, members));
            proof {
                lemma_chained_at(before, correlation_id@, event_id@, i as int);
                assert(chains_of(chains@) =~= before.update(
                    i as int,
                    (correlation_id@, before[i as int].1.push(event_id@)),
                )) by {
                    assert forall|k: int| 0 <= k < chains@.len() implies #[trigger] chains_of(
                        chains@,
                    )[k] == before.update(
                        i as int,
                        (correlation_id@, before[i as int].1.push(event_id@)),
                    )[k] by {
                        if k == i {
                            assert(chains_of(chains@)[k].1 =~= before[i as int].1.push(event_id@));
                        } else {
                            assert(chains_of(chains@)[k].1 =~= before[k].1);
                        }
                    }
                }
            }
            return ;
        }
        i = i + 1;
    }
    let ghost before = chains_of(chains@);
    let mut members: Vec<String> = Vec::new();
    members.push(event_id.clone());
    chains.push((correlation_id.clone(), members));
    proof {
        lemma_chained_new(before, correlation_id@, event_id@);
        assert(chains_of(chains@) =~= before.push((correlation_id@, seq![event_id@]))) by {
            assert forall|k: int| 0 <= k < chains@.len() implies #[trigger] chains_of(chains@)[k]
                == before.push((correlation_id@, seq![event_id@]))[k] by {
                if k < before.len() {
                    assert(chains_of(chains@)[k].1 =~= before[k].1);
                } else {
                    assert(chains_of(chains@)[k].1 =~= seq![event_id@]);
                }
            }
        }
    }
}

/// Where the correlation stands at `i` and nowhere before, that chain grows
/// and all else stays.
pub proof fn lemma_chained_at(
    chains: Seq<(Seq<char>, Seq<Seq<char>>)>,
    correlation_id: Seq<char>,
    event_id: Seq<char>,
    i: int,
)
    requires
        0 <= i < chains.len(),
        chains[i].0 == correlation_id,
        forall|j: int| 0 <= j < i ==> (#[trigger] chains[j]).0 != correlation_id,
    ensures
        chained(chains, correlation_id, event_id) == chains.update(
            i,
            (correlation_id, chains[i].1.push(event_id)),
        ),
    decreases chains.len(),
{
    if i > 0 {
        let rest = chains.drop_first();
        assert forall|j: int| 0 <= j < i - 1 implies (#[trigger] rest[j]).0 != correlation_id by {
            assert(rest[j] == chains[j + 1]);
        }
        lemma_chained_at(rest, correlation_id, event_id, i - 1);
        assert(chained(chains, correlation_id, event_id) =~= chains.update(
            i,
            (correlation_id, chains[i].1.push(event_id)),
        ));
    }
}

/// A correlation without a chain gets a new last chain.
pub proof fn lemma_chained_new(
    chains: Seq<(Seq<char>, Seq<Seq<char>>)>,
    correlation_id: Seq<char>,
    event_id: Seq<char>,
)
    requires
        forall|j: int| 0 <= j < chains.len() ==> (#[trigger] chains[j]).0 != correlation_id,
    ensures
        chained(chains, correlation_id, event_id) == chains.push(
            (correlation_id, seq![event_id]),
        ),
    decreases chains.len(),
{
    if chains.len() == 0 {
        assert(chained(chains, correlation_id, event_id) =~= chains.push(
            (correlation_id, seq![event_id]),
        ));
    } else {
        let rest = chains.drop_first();
        assert(chains[0].0 != correlation_id);
        assert forall|j: int| 0 <= j < rest.len() implies (#[trigger] rest[j]).0
            != correlation_id by {
            assert(rest[j] == chains[j + 1]);
        }
        lemma_chained_new(rest, correlation_id, event_id);
        assert(chained(chains, correlation_id, event_id) =~= chains.push(
            (correlation_id, seq![event_id]),
        ));
    }
}

} // verus!
