use fight_progress::events::{BeginCast, Cast, Death, ReportEvent};
use fight_progress::phase_definition::{
    BeginCastMarker, DeathMarker, EndCastMarker, EventMarker, MarkerSearch, PhaseDefinitionsCollection,
    PhaseDefinitionsPhase, PhaseMarker, SearchStep,
};
use fight_progress::query::{EventFilters, EventsView, Hostility, ReportEventsList};
use fight_progress::types::{Ability, ActorData, Source, Target};

fn source() -> Source {
    Source { id: Some(1), source_data: None, is_friendly: false, resources: None }
}

fn ability(guid: i64) -> Ability {
    Ability { name: "Ability".to_string(), guid, ability_type: 1, icon: None }
}

fn begin_cast(timestamp: u64, guid: i64) -> ReportEvent {
    ReportEvent::BeginCast(BeginCast { timestamp, source: source(), target: None, ability: ability(guid), packet_id: None })
}

fn cast(timestamp: u64, guid: i64) -> ReportEvent {
    ReportEvent::Cast(Cast { timestamp, source: source(), target: None, ability: ability(guid), packet_id: None })
}

fn death(timestamp: u64, target: Target) -> ReportEvent {
    ReportEvent::Death(Death {
        timestamp,
        source: source(),
        target: Some(target),
        ability: None,
        killer_id: None,
        killing_ability: None,
    })
}

fn target_with_id(id: i64) -> Target {
    Target { id: Some(id), target_data: None, is_friendly: false, resources: None }
}

/// Answers each fetch with every event of the window, as one page.
fn answer(all: &[ReportEvent], f: &EventFilters) -> ReportEventsList {
    let events = all
        .iter()
        .filter(|e| {
            let t = e.get_timestamp().unwrap();
            f.start <= t && t < f.end
        })
        .cloned()
        .collect();
    ReportEventsList { events, next_page_timestamp: None }
}

fn run(mut search: MarkerSearch, all: &[ReportEvent]) -> (Option<ReportEvent>, usize) {
    let mut fetches = 0;
    let mut step = search.step();
    loop {
        match step {
            SearchStep::Fetch(_, f) => {
                fetches += 1;
                step = search.deliver(Ok(answer(all, &f)));
            }
            SearchStep::Found(r) => return (r, fetches),
            SearchStep::Failed(e) => panic!("unexpected failure {:?}", e),
        }
    }
}

fn begin_marker(guid: i64, instance_no: Option<i32>) -> PhaseMarker {
    PhaseMarker::EventMarker(EventMarker::BeginCast(BeginCastMarker { ability_id: guid, instance_no, hostility: None }))
}

#[test]
fn skip_selects_the_following_match() {
    let all = vec![begin_cast(10, 5), cast(15, 5), begin_cast(20, 6), begin_cast(30, 5), begin_cast(40, 5)];
    let code = "r".to_string();
    let (first, _) = run(begin_marker(5, None).get_matching_event(&code, 0, 100), &all);
    assert_eq!(first.unwrap().get_timestamp(), Some(10));
    let (second, _) = run(begin_marker(5, Some(1)).get_matching_event(&code, 0, 100), &all);
    assert_eq!(second.unwrap().get_timestamp(), Some(30));
    let (third, _) = run(begin_marker(5, Some(2)).get_matching_event(&code, 0, 100), &all);
    assert_eq!(third.unwrap().get_timestamp(), Some(40));
    let (none, _) = run(begin_marker(5, Some(3)).get_matching_event(&code, 0, 100), &all);
    assert!(none.is_none());
}

#[test]
fn negative_instance_number_skips_nothing() {
    let all = vec![begin_cast(10, 5), begin_cast(30, 5)];
    let (found, _) = run(begin_marker(5, Some(-2)).get_matching_event(&"r".to_string(), 0, 100), &all);
    assert_eq!(found.unwrap().get_timestamp(), Some(10));
}

#[test]
fn search_is_bounded_by_its_window() {
    let all = vec![begin_cast(10, 5), begin_cast(30, 5)];
    let (found, _) = run(begin_marker(5, None).get_matching_event(&"r".to_string(), 11, 100), &all);
    assert_eq!(found.unwrap().get_timestamp(), Some(30));
    let (none, _) = run(begin_marker(5, None).get_matching_event(&"r".to_string(), 11, 30), &all);
    assert!(none.is_none());
}

#[test]
fn fight_start_takes_the_first_event_of_any_kind() {
    let all = vec![cast(12, 9), begin_cast(20, 5)];
    let search = PhaseMarker::FightStartMarker.get_matching_event(&"r".to_string(), 0, 100);
    let mut probe = PhaseMarker::FightStartMarker.get_matching_event(&"r".to_string(), 0, 100);
    match probe.step() {
        SearchStep::Fetch(view, f) => {
            assert_eq!(view, EventsView::Summary);
            assert_eq!(f.start, 0);
        }
        other => panic!("expected a fetch, got {:?}", other),
    }
    let (found, fetches) = run(search, &all);
    assert_eq!(found.unwrap().get_timestamp(), Some(12));
    assert_eq!(fetches, 1);
}

#[test]
fn marker_compares_kind_and_field() {
    let begin = EventMarker::BeginCast(BeginCastMarker { ability_id: 5, instance_no: None, hostility: None });
    let end = EventMarker::EndCast(EndCastMarker { ability_id: 5, instance_no: None, hostility: None });
    assert!(begin.compare_to_event(&begin_cast(1, 5)));
    assert!(!begin.compare_to_event(&begin_cast(1, 6)));
    assert!(!begin.compare_to_event(&cast(1, 5)));
    assert!(end.compare_to_event(&cast(1, 5)));
    assert!(!end.compare_to_event(&begin_cast(1, 5)));
    assert!(PhaseMarker::FightStartMarker.check_event(&ReportEvent::UnparseableEvent));
}

#[test]
fn death_marker_uses_the_target_id_or_its_actor_guid() {
    let marker = EventMarker::Death(DeathMarker { target_id: 77, instance_no: None, hostility: None });
    assert!(marker.compare_to_event(&death(5, target_with_id(77))));
    assert!(!marker.compare_to_event(&death(5, target_with_id(78))));
    let via_actor = Target {
        id: None,
        target_data: Some(ActorData { name: "Boss".to_string(), id: 3, guid: 77, actor_type: "NPC".to_string(), icon: None }),
        is_friendly: false,
        resources: None,
    };
    assert_eq!(via_actor.get_id(), Some(77));
    assert!(marker.compare_to_event(&death(5, via_actor)));
    assert!(!marker.compare_to_event(&begin_cast(5, 77)));
}

#[test]
fn filters_follow_the_marker_kind() {
    let (view, f) = EventMarker::BeginCast(BeginCastMarker { ability_id: 5, instance_no: None, hostility: None })
        .create_event_filters();
    assert_eq!(view, EventsView::Casts);
    assert_eq!(f.ability_id, Some(5));
    assert_eq!(f.hostility, Some(Hostility::Hostile));
    assert_eq!(f.target_id, None);
    let (view, f) = EventMarker::Death(DeathMarker { target_id: 9, instance_no: None, hostility: Some(Hostility::Friendly) })
        .create_event_filters();
    assert_eq!(view, EventsView::Deaths);
    assert_eq!(f.target_id, Some(9));
    assert_eq!(f.hostility, Some(Hostility::Friendly));
    let (view, f) = PhaseMarker::FightStartMarker.create_event_filters();
    assert_eq!(view, EventsView::Summary);
    assert_eq!(f.hostility, None);
}

#[test]
fn definitions_are_looked_up_by_name() {
    let mut defs = PhaseDefinitionsCollection::new();
    let phase = |name: &str| PhaseDefinitionsPhase { phase_name: name.to_string(), start_marker: None, end_marker: None };
    defs.insert("Boss A".to_string(), vec![phase("Opening")]);
    defs.insert("Boss B".to_string(), vec![phase("X"), phase("Y")]);
    defs.insert("Boss A".to_string(), vec![phase("Opening"), phase("Adds")]);
    assert_eq!(defs.get(&"Boss A".to_string()).unwrap().len(), 2);
    assert_eq!(defs.get(&"Boss B".to_string()).unwrap()[0].phase_name, "X");
    assert!(defs.get(&"Boss C".to_string()).is_none());
}
