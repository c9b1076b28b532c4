//! Which events of the stream are shown.

use vstd::prelude::*;
use vstd::string::StringExecFns;
use crate::event_stream::DomainEventReceived;
use crate::json::{json_printed, json_text};
use crate::text::{contains_text, lowercase, occurs_in, to_lowercase};
use crate::time::{cutoff_before, now_millis, seconds_before, Timestamp};

verus! {

/// The conditions that an event has to meet to be shown. A condition that
/// is absent excludes nothing.
#[derive(Debug, Clone, PartialEq, Eq)]
pub struct EventFilters {
    /// Shown are events whose domain contains this text.
    pub domain_filter: Option<String>,
    /// Shown are events whose kind contains this text.
    pub event_type_filter: Option<String>,
    /// Shown are events whose kind of aggregate contains this text.
    pub aggregate_type_filter: Option<String>,
    /// Shown are only events that name a cause or a correlation.
    pub show_only_linked: bool,
    /// Shown are events of the last so many minutes.
    pub time_window_minutes: Option<u32>,
    /// Shown are events in whose text this text occurs, letter case aside.
    pub search_text: Option<String>,
}

impl Default for EventFilters {
    /// No condition at all.
    fn default() -> (filters: Self)
        ensures
            filters.domain_filter is None,
            filters.event_type_filter is None,
            filters.aggregate_type_filter is None,
            !filters.show_only_linked,
            filters.time_window_minutes is None,
            filters.search_text is None,
    {
        EventFilters {
            domain_filter: None,
            event_type_filter: None,
            aggregate_type_filter: None,
            show_only_linked: false,
            time_window_minutes: None,
            search_text: None,
        }
    }
}

/// Whether `part` is absent or occurs in `whole`.
pub open spec fn admits(part: Option<String>, whole: Seq<char>) -> bool {
    match part {
        Some(text) => occurs_in(text@, whole),
        None => true,
    }
}

/// The text of an event that a search looks into: its domain, its kind, the
/// kind of its aggregate and its payload as JSON text, with one blank
/// between each two.
pub open spec fn searched_text(event: DomainEventReceived) -> Seq<char> {
    event.domain@ + " "@ + event.event_type@ + " "@ + event.aggregate_type@ + " "@ + json_printed(
        event.payload,
    )
}

/// The seconds in as many minutes.
pub open spec fn minutes_as_seconds(minutes: u32) -> u64 {
    (minutes * 60) as u64
}

impl EventFilters {
    /// Whether the filters show `event` when the present time is `now`.
    pub open spec fn shows(self, event: DomainEventReceived, now: Timestamp) -> bool {
        &&& admits(self.domain_filter, event.domain@)
        &&& admits(self.event_type_filter, event.event_type@)
        &&& admits(self.aggregate_type_filter, event.aggregate_type@)
        &&& !(self.show_only_linked && event.causation_id is None && event.correlation_id is None)
        &&& match self.time_window_minutes {
            Some(minutes) => event.timestamp >= seconds_before(now, minutes_as_seconds(minutes)),
            None => true,
        }
        &&& match self.search_text {
            Some(sought) => occurs_in(lowercase(sought@), lowercase(searched_text(event))),
            None => true,
        }
    }

    /// Whether any condition is set that the filter panel shows as active.
    pub open spec fn active(self) -> bool {
        self.domain_filter is Some || self.event_type_filter is Some || self.search_text is Some
            || self.show_only_linked
    }

    /// Whether the filters show `event` when the present time is `now`.
    pub fn matches_at(&self, event: &DomainEventReceived, now: Timestamp) -> (shown: bool)
        ensures
            shown == self.shows(*event, now),
    {
        match &self.domain_filter {
            Some(domain) => {
                if !contains_text(event.domain.as_str(), domain.as_str()) {
                    return false;
                }
            },
            None => {},
        }
        match &self.event_type_filter {
            Some(event_type) => {
                if !contains_text(event.event_type.as_str(), event_type.as_str()) {
                    return false;
                }
            },
            None => {},
        }
        match &self.aggregate_type_filter {
            Some(aggregate_type) => {
                if !contains_text(event.aggregate_type.as_str(), aggregate_type.as_str()) {
                    return false;
                }
            },
            None => {},
        }
        if self.show_only_linked && event.causation_id.is_none() && event.correlation_id.is_none() {
            return false;
        }
        match self.time_window_minutes {
            Some(minutes) => {
                let seconds: u64 = (minutes as u64) * 60;
                if event.timestamp < cutoff_before(now, seconds) {
                    return false;
                }
            },
            None => {},
        }
        match &self.search_text {
            Some(sought) => {
                let sought_lower = to_lowercase(sought.as_str());
                let mut text = event.domain.clone();
                text.append(" ");
                text.append(event.event_type.as_str());
                text.append(" ");
                text.append(event.aggregate_type.as_str());
                text.append(" ");
                let printed = json_text(&event.payload);
                text.append(printed.as_str());
                let text_lower = to_lowercase(text.as_str());
                if !contains_text(text_lower.as_str(), sought_lower.as_str()) {
                    return false;
                }
            },
            None => {},
        }
        true
    }

    /// Whether the filters show `event` now. The present time is read off
    /// the clock, so the contract holds of whatever time that was.
    pub fn matches(&self, event: &DomainEventReceived) -> (shown: bool)
        ensures
            exists|now: Timestamp| shown == self.shows(*event, now),
    {
        let now = now_millis();
        let shown = self.matches_at(event, now);
        proof {
            assert(shown == self.shows(*event, now));
        }
        shown
    }

    /// Whether any condition is set that the filter panel shows as active:
    /// one on the domain, on the kind of event or on the text, or the
    /// restriction to linked events.
    pub fn has_active_filters(&self) -> (active: bool)
        ensures
            active == self.active(),
    {
        self.domain_filter.is_some() || self.event_type_filter.is_some()
            || self.search_text.is_some() || self.show_only_linked
    }
}

/// What the user has typed into the filter panel.
#[derive(Debug, Clone, PartialEq, Eq)]
pub struct FilterInputs {
    pub domain_input: String,
    pub event_type_input: String,
    pub search_input: String,
}

/// The condition that a typed text stands for: none where nothing was
/// typed, the text otherwise.
pub open spec fn condition_of(input: String) -> Option<String> {
    if input@.len() == 0 {
        None
    } else {
        Some(input)
    }
}

fn condition_from(input: &String) -> (condition: Option<String>)
    ensures
        condition == condition_of(*input),
{
    if input.as_str().is_empty() {
        None
    } else {
        Some(input.clone())
    }
}

/// Puts what was typed into the filters, as the panel does when the user
/// confirms: the domain, the kind of event and the search text are replaced,
/// the other conditions stay.
pub fn handle_filter_input(filters: &mut EventFilters, inputs: &FilterInputs)
    ensures
        final(filters).domain_filter == condition_of(inputs.domain_input),
        final(filters).event_type_filter == condition_of(inputs.event_type_input),
        final(filters).search_text == condition_of(inputs.search_input),
        final(filters).aggregate_type_filter == old(filters).aggregate_type_filter,
        final(filters).show_only_linked == old(filters).show_only_linked,
        final(filters).time_window_minutes == old(filters).time_window_minutes,
{
    filters.domain_filter = condition_from(&inputs.domain_input);
    filters.event_type_filter = condition_from(&inputs.event_type_input);
    filters.search_text = condition_from(&inputs.search_input);
}

} // verus!
