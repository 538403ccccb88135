use fight_progress::errors::{AnalysisError, ApiError};
use fight_progress::assembler::{analyse_fight, backfill_phase_ends, AssemblyStep, FightAnalysis, RawPhaseData};
use fight_progress::events::{BeginCast, ReportEvent};
use fight_progress::phase_definition::{BeginCastMarker, EventMarker, PhaseDefinitionsPhase, PhaseMarker};
use fight_progress::query::{EventFilters, ReportEventsList};
use fight_progress::statistics::{get_pull_stats, ClearedStatus};
use fight_progress::types::{Ability, Source};

fn begin_cast(timestamp: u64, guid: i64) -> ReportEvent {
    ReportEvent::BeginCast(BeginCast {
        timestamp,
        source: Source { id: Some(1), source_data: None, is_friendly: false, resources: None },
        target: None,
        ability: Ability { name: "Ability".to_string(), guid, ability_type: 1, icon: None },
        packet_id: None,
    })
}

fn begin(guid: i64) -> Option<PhaseMarker> {
    Some(PhaseMarker::EventMarker(EventMarker::BeginCast(BeginCastMarker { ability_id: guid, instance_no: None, hostility: None })))
}

fn phase(name: &str, start: Option<PhaseMarker>, end: Option<PhaseMarker>) -> PhaseDefinitionsPhase {
    PhaseDefinitionsPhase { phase_name: name.to_string(), start_marker: start, end_marker: end }
}

fn answer(all: &[ReportEvent], f: &EventFilters) -> ReportEventsList {
    let events = all
        .iter()
        .filter(|e| {
            let t = e.get_timestamp().unwrap();
            f.start <= t && t < f.end
        })
        .cloned()
        .collect();
    ReportEventsList { events, next_page_timestamp: None }
}

/// Runs the assembly of the fight `[start, end)` against a source holding `all`,
/// and counts the fetches it asked for.
fn assemble(defs: &Vec<PhaseDefinitionsPhase>, all: &[ReportEvent], start: u64, end: u64) -> (FightAnalysis, usize) {
    let mut assembly = analyse_fight(&"Boss".to_string(), &"code".to_string(), start, end, defs);
    let mut fetches = 0;
    let mut step = assembly.step(defs);
    loop {
        match step {
            AssemblyStep::Fetch(_, f) => {
                fetches += 1;
                step = assembly.deliver(defs, Ok(answer(all, &f)));
            }
            AssemblyStep::Finished(r) => return (r.unwrap(), fetches),
        }
    }
}

fn raw(name: &str, start: u64, end: Option<u64>) -> RawPhaseData {
    RawPhaseData {
        phase_name: name.to_string(),
        phase_start: start,
        phase_start_event: begin_cast(start, 1),
        phase_end: end,
        phase_end_event: end.map(|e| begin_cast(e, 2)),
    }
}

#[test]
fn phases_resolve_in_order() {
    let defs = vec![
        phase("Opening", Some(PhaseMarker::FightStartMarker), begin(5)),
        phase("Adds", begin(6), begin(7)),
    ];
    let all = vec![begin_cast(1000, 1), begin_cast(2000, 5), begin_cast(3000, 6), begin_cast(4000, 7)];
    let (fight, fetches) = assemble(&defs, &all, 1000, 5000);
    assert_eq!(fetches, 4);
    assert_eq!(fight.phases.len(), 2);
    assert_eq!(fight.phases[0].phase_start, 1000);
    assert_eq!(fight.phases[0].phase_end, Some(2000));
    assert_eq!(fight.phases[1].phase_start, 3000);
    assert_eq!(fight.phases[1].phase_end, Some(4000));
}

#[test]
fn a_missing_start_stops_the_assembly() {
    let defs = vec![
        phase("A", Some(PhaseMarker::FightStartMarker), None),
        phase("B", begin(99), None),
        phase("C", Some(PhaseMarker::FightStartMarker), None),
    ];
    let all = vec![begin_cast(1000, 1), begin_cast(2000, 5)];
    let (fight, fetches) = assemble(&defs, &all, 1000, 5000);
    assert_eq!(fight.phases.len(), 1);
    assert_eq!(fight.phases[0].phase_name, "A");
    assert_eq!(fetches, 2);
}

#[test]
fn a_missing_end_is_the_next_start() {
    let defs = vec![phase("A", Some(PhaseMarker::FightStartMarker), None), phase("B", begin(6), None)];
    let all = vec![begin_cast(1000, 1), begin_cast(3000, 6)];
    let (fight, _) = assemble(&defs, &all, 1000, 5000);
    assert_eq!(fight.phases[0].phase_end, Some(3000));
    assert_eq!(fight.phases[0].phase_end_event.as_ref().and_then(|e| e.get_timestamp()), Some(3000));
    assert_eq!(fight.phases[1].phase_end, None);
}

#[test]
fn a_phase_without_start_marker_starts_at_the_cursor() {
    let defs = vec![phase("A", Some(PhaseMarker::FightStartMarker), begin(5)), phase("B", None, None)];
    let all = vec![begin_cast(1000, 1), begin_cast(2500, 5)];
    let (fight, _) = assemble(&defs, &all, 1000, 5000);
    assert_eq!(fight.phases[1].phase_start, 2500);
}

#[test]
fn backfill_fills_all_but_the_last() {
    let mut phases = vec![raw("A", 10, None), raw("B", 20, Some(25)), raw("C", 30, None), raw("D", 40, None)];
    backfill_phase_ends(&mut phases);
    assert_eq!(phases[0].phase_end, Some(20));
    assert_eq!(phases[1].phase_end, Some(25));
    assert_eq!(phases[2].phase_end, Some(40));
    assert_eq!(phases[3].phase_end, None);
    assert_eq!(phases[3].phase_end_event, None);
}

fn analysis(phases: Vec<RawPhaseData>, start: u64, end: u64) -> FightAnalysis {
    FightAnalysis { fight_name: "Boss".to_string(), report_code: "code".to_string(), start_time: start, end_time: end, phases }
}

#[test]
fn last_phase_without_end_before_the_final_definition_is_wiped() {
    let defs = vec![phase("A", None, None), phase("B", None, None), phase("C", None, None)];
    let stats = get_pull_stats(&analysis(vec![raw("A", 0, None)], 0, 9000), &defs, 0);
    assert_eq!(stats.prog.len(), 1);
    assert_eq!(stats.prog[0].phase_cleared, ClearedStatus::Wiped);
    assert_eq!(stats.prog[0].phase_duration_millis, 9000);
}

#[test]
fn final_phase_without_end_is_unknown() {
    let defs = vec![phase("A", None, None), phase("B", None, None), phase("C", None, None)];
    let phases = vec![raw("A", 0, Some(1000)), raw("B", 1000, Some(4000)), raw("C", 4000, None)];
    let stats = get_pull_stats(&analysis(phases, 0, 9000), &defs, 0);
    let status: Vec<ClearedStatus> = stats.prog.iter().map(|p| p.phase_cleared).collect();
    assert_eq!(status, vec![ClearedStatus::Clear, ClearedStatus::Clear, ClearedStatus::Unknown]);
    let durations: Vec<u64> = stats.prog.iter().map(|p| p.phase_duration_millis).collect();
    assert_eq!(durations, vec![1000, 3000, 5000]);
    assert_eq!(stats.duration_millis, 9000);
}

#[test]
fn last_phase_with_end_is_cleared() {
    let defs = vec![phase("A", None, None), phase("B", None, None)];
    let stats = get_pull_stats(&analysis(vec![raw("A", 100, Some(600))], 100, 900), &defs, 0);
    assert_eq!(stats.prog[0].phase_cleared, ClearedStatus::Clear);
    assert_eq!(stats.prog[0].phase_duration_millis, 500);
}

#[test]
fn wall_clock_times_are_offsets_from_the_report_start() {
    let defs = vec![phase("A", None, None)];
    let stats = get_pull_stats(&analysis(vec![], 1000, 4000), &defs, 1_600_000_000_000);
    assert_eq!(stats.fight_start, Some(1_600_000_001_000));
    assert_eq!(stats.fight_end, Some(1_600_000_004_000));
    assert_eq!(stats.duration_millis, 3000);
}

#[test]
fn wall_clock_out_of_range_is_none() {
    let defs = vec![phase("A", None, None)];
    let stats = get_pull_stats(&analysis(vec![], 0, 10), &defs, 9_000_000_000_000_000);
    assert_eq!(stats.fight_start, None);
    let stats = get_pull_stats(&analysis(vec![], 0, 10), &defs, u64::MAX - 5);
    assert_eq!(stats.fight_start, None);
    assert_eq!(stats.fight_end, None);
}

#[test]
fn wall_clock_ends_at_the_last_representable_millisecond() {
    let defs = vec![phase("A", None, None)];
    let last = 8_210_266_876_799_999u64;
    let stats = get_pull_stats(&analysis(vec![], 0, 1), &defs, last);
    assert_eq!(stats.fight_start, Some(last as i64));
    assert_eq!(stats.fight_end, None);
}

#[test]
fn an_end_after_the_next_start_still_has_durations() {
    let defs = vec![phase("A", None, None), phase("B", None, None)];
    let phases = vec![raw("A", 0, Some(3000)), raw("B", 2000, None)];
    let stats = get_pull_stats(&analysis(phases, 0, 5000), &defs, 0);
    let durations: Vec<u64> = stats.prog.iter().map(|p| p.phase_duration_millis).collect();
    assert_eq!(durations, vec![3000, 3000]);
    assert_eq!(stats.prog[1].phase_cleared, ClearedStatus::Unknown);
}

#[test]
fn a_failed_page_ends_the_fight_with_its_error() {
    let defs = vec![phase("A", Some(PhaseMarker::FightStartMarker), None)];
    let mut assembly = analyse_fight(&"Boss".to_string(), &"code".to_string(), 0, 100, &defs);
    match assembly.step(&defs) {
        AssemblyStep::Fetch(_, _) => {}
        other => panic!("expected a fetch, got {:?}", other),
    }
    match assembly.deliver(&defs, Err(ApiError::RequestError("down".to_string()))) {
        AssemblyStep::Finished(Err(AnalysisError::ApiError(ApiError::RequestError(m)))) => assert_eq!(m, "down"),
        other => panic!("expected the failure, got {:?}", other),
    }
}
