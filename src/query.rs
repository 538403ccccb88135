//! What a page request asks for: the view, the time window and the field filters.
use vstd::prelude::*;

use crate::events::ReportEvent;
use crate::types::copy_opt_text;

verus! {

/// The view a page request asks for; it decides which kinds of event come back.
#[derive(Debug, Clone, Copy, PartialEq, Eq, Structural)]
pub enum EventsView {
    Summary,
    DamageDone,
    DamageTaken,
    Healing,
    Casts,
    Summons,
    Buffs,
    Debuffs,
    Deaths,
    Threat,
    Resources,
    Interrupts,
    Dispels,
}

/// The path segment that names a view in a request.
pub open spec fn view_path(v: EventsView) -> Seq<char> {
    match v {
        EventsView::Summary => "summary"@,
        EventsView::DamageDone => "damage-done"@,
        EventsView::DamageTaken => "damage-taken"@,
        EventsView::Healing => "healing"@,
        EventsView::Casts => "casts"@,
        EventsView::Summons => "summons"@,
        EventsView::Buffs => "buffs"@,
        EventsView::Debuffs => "debuffs"@,
        EventsView::Deaths => "deaths"@,
        EventsView::Threat => "threat"@,
        EventsView::Resources => "resources"@,
        EventsView::Interrupts => "interrupts"@,
        EventsView::Dispels => "dispels"@,
    }
}

impl EventsView {
    /// The path segment that names this view in a request.
    pub fn path_name(&self) -> (r: &'static str)
        ensures
            r@ == view_path(*self),
    {
        match self {
            EventsView::Summary => "summary",
            EventsView::DamageDone => "damage-done",
            EventsView::DamageTaken => "damage-taken",
            EventsView::Healing => "healing",
            EventsView::Casts => "casts",
            EventsView::Summons => "summons",
            EventsView::Buffs => "buffs",
            EventsView::Debuffs => "debuffs",
            EventsView::Deaths => "deaths",
            EventsView::Threat => "threat",
            EventsView::Resources => "resources",
            EventsView::Interrupts => "interrupts",
            EventsView::Dispels => "dispels",
        }
    }
}

/// Whether an actor is friendly or hostile to the players.
#[derive(Debug, Clone, Copy, PartialEq, Eq, Structural)]
pub enum Hostility {
    Friendly,
    Hostile,
}

impl Default for Hostility {
    fn default() -> (r: Hostility)
        ensures
            r == Hostility::Friendly,
    {
        Hostility::Friendly
    }
}

/// A request window `[start, end)` in milliseconds, with optional field filters.
#[derive(Debug, Clone, PartialEq)]
pub struct EventFilters {
    pub start: u64,
    pub end: u64,
    pub hostility: Option<Hostility>,
    pub source_id: Option<i64>,
    pub source_instance: Option<i64>,
    pub source_class: Option<String>,
    pub target_id: Option<i64>,
    pub target_instance: Option<i64>,
    pub target_class: Option<String>,
    pub ability_id: Option<i64>,
    pub death: Option<i64>,
    pub options: Option<i64>,
    pub cutoff: Option<i64>,
    pub encounter: Option<i64>,
    pub wipes: Option<i64>,
    pub difficulty: Option<i64>,
    pub filter: Option<String>,
    pub translate: Option<bool>,
}

/// The same filters over another window.
pub open spec fn rewindowed(f: EventFilters, start: u64, end: u64) -> EventFilters {
    EventFilters { start: start, end: end, ..f }
}

impl EventFilters {
    /// A window `[start, end)` with no field filter set.
    pub fn window(start: u64, end: u64) -> (r: EventFilters)
        ensures
            r == blank_filters(start, end),
    {
        EventFilters {
            start,
            end,
            hostility: None,
            source_id: None,
            source_instance: None,
            source_class: None,
            target_id: None,
            target_instance: None,
            target_class: None,
            ability_id: None,
            death: None,
            options: None,
            cutoff: None,
            encounter: None,
            wipes: None,
            difficulty: None,
            filter: None,
            translate: None,
        }
    }

    /// These filters over the window `[start, end)`.
    pub fn with_window(&self, start: u64, end: u64) -> (r: EventFilters)
        ensures
            r == rewindowed(*self, start, end),
    {
        EventFilters {
            start,
            end,
            hostility: self.hostility,
            source_id: self.source_id,
            source_instance: self.source_instance,
            source_class: copy_opt_text(&self.source_class),
            target_id: self.target_id,
            target_instance: self.target_instance,
            target_class: copy_opt_text(&self.target_class),
            ability_id: self.ability_id,
            death: self.death,
            options: self.options,
            cutoff: self.cutoff,
            encounter: self.encounter,
            wipes: self.wipes,
            difficulty: self.difficulty,
            filter: copy_opt_text(&self.filter),
            translate: self.translate,
        }
    }
}

/// The window `[start, end)` with no field filter set.
pub open spec fn blank_filters(start: u64, end: u64) -> EventFilters {
    EventFilters {
        start: start,
        end: end,
        hostility: None,
        source_id: None,
        source_instance: None,
        source_class: None,
        target_id: None,
        target_instance: None,
        target_class: None,
        ability_id: None,
        death: None,
        options: None,
        cutoff: None,
        encounter: None,
        wipes: None,
        difficulty: None,
        filter: None,
        translate: None,
    }
}

/// One page of events, and where the next page starts if there is one.
#[derive(Debug, Clone, PartialEq)]
pub struct ReportEventsList {
    pub events: Vec<ReportEvent>,
    pub next_page_timestamp: Option<u64>,
}

} // verus!
