use fight_progress::errors::AnalysisError;
use fight_progress::events::{BeginCast, ReportEvent};
use fight_progress::fights::{construct_path, Fight, ReportFightsList};
use fight_progress::phase_definition::{PhaseDefinitionsCollection, PhaseDefinitionsPhase, PhaseMarker};
use fight_progress::query::{EventFilters, ReportEventsList};
use fight_progress::report::{analyse_fights_by_name, ReportStep};
use fight_progress::report_code::convert_report_code;
use fight_progress::statistics::{get_report_stats, summarise_report, ClearedStatus, FightStatistics, PhaseProgress};
use fight_progress::types::{Ability, Source};

fn progress(name: &str, millis: u64, status: ClearedStatus) -> PhaseProgress {
    PhaseProgress { phase_name: name.to_string(), phase_duration_millis: millis, phase_cleared: status }
}

fn fight_stats(duration: u64, prog: Vec<PhaseProgress>) -> FightStatistics {
    FightStatistics { fight_name: "Boss".to_string(), fight_start: None, fight_end: None, duration_millis: duration, prog }
}

fn phase(name: &str, start: Option<PhaseMarker>) -> PhaseDefinitionsPhase {
    PhaseDefinitionsPhase { phase_name: name.to_string(), start_marker: start, end_marker: None }
}

#[test]
fn three_fights_aggregate_per_phase() {
    let defs = vec![phase("Opening", None), phase("Adds", None)];
    let fights = vec![
        fight_stats(10_000, vec![progress("Opening", 10_000, ClearedStatus::Clear)]),
        fight_stats(17_000, vec![progress("Opening", 12_000, ClearedStatus::Clear), progress("Adds", 5_000, ClearedStatus::Wiped)]),
        fight_stats(8_000, vec![progress("Opening", 8_000, ClearedStatus::Clear)]),
    ];
    let summary = summarise_report(&fights, &defs);
    assert_eq!(summary.pull_count, 3);
    assert_eq!(summary.total_time_spent_in_fights_millis, 35_000);
    assert_eq!(summary.average_duration_millis, 35_000 / 3);
    assert_eq!(summary.phases.len(), 2);
    let opening = &summary.phases[0];
    assert_eq!(opening.name, "Opening");
    assert_eq!(opening.seen_count, 3);
    assert_eq!(opening.pull_count, 3);
    assert_eq!(opening.total_time_spent_millis, 30_000);
    assert_eq!(opening.cleared_count, 3);
    let adds = &summary.phases[1];
    assert_eq!(adds.name, "Adds");
    assert_eq!(adds.seen_count, 1);
    assert_eq!(adds.pull_count, 3);
    assert_eq!(adds.total_time_spent_millis, 5_000);
    assert_eq!(adds.cleared_count, 0);
}

#[test]
fn no_fights_give_an_empty_summary() {
    let defs = vec![phase("Opening", None)];
    let summary = summarise_report(&vec![], &defs);
    assert_eq!(summary.pull_count, 0);
    assert_eq!(summary.average_duration_millis, 0);
    assert_eq!(summary.total_time_spent_in_fights_millis, 0);
    assert!(summary.phases.is_empty());
}

#[test]
fn a_phase_nobody_reached_is_listed_unseen() {
    let defs = vec![phase("Opening", None), phase("Finale", None)];
    let fights = vec![fight_stats(1_000, vec![progress("Opening", 1_000, ClearedStatus::Unknown)])];
    let summary = summarise_report(&fights, &defs);
    assert_eq!(summary.phases[0].cleared_count, 0);
    assert_eq!(summary.phases[0].seen_count, 1);
    assert_eq!(summary.phases[1].seen_count, 0);
    assert_eq!(summary.phases[1].total_time_spent_millis, 0);
}

fn fight(id: i64, name: Option<&str>, start: u64, end: u64) -> Fight {
    Fight {
        id,
        start_time: start,
        end_time: end,
        boss: None,
        name: name.map(|n| n.to_string()),
        zone_id: None,
        zone_name: None,
        size: None,
        difficulty: None,
        kill: None,
        partial: None,
        standard_composition: None,
        boss_percentage: None,
        fight_percentage: None,
        last_phase_for_percentage_display: None,
    }
}

fn report(fights: Vec<Fight>, start: Option<u64>, end: Option<u64>) -> ReportFightsList {
    ReportFightsList {
        fights,
        language: None,
        friendlies: vec![],
        enemies: vec![],
        friendly_pets: vec![],
        enemy_pets: vec![],
        phases: vec![],
        log_version: None,
        title: None,
        owner: None,
        start,
        end,
        zone: None,
    }
}

fn collection() -> PhaseDefinitionsCollection {
    let mut c = PhaseDefinitionsCollection::new();
    c.insert("Boss".to_string(), vec![phase("Opening", Some(PhaseMarker::FightStartMarker))]);
    c
}

fn event_at(timestamp: u64) -> ReportEvent {
    ReportEvent::BeginCast(BeginCast {
        timestamp,
        source: Source { id: Some(1), source_data: None, is_friendly: false, resources: None },
        target: None,
        ability: Ability { name: "Ability".to_string(), guid: 1, ability_type: 1, icon: None },
        packet_id: None,
    })
}

fn answer(all: &[ReportEvent], f: &EventFilters) -> ReportEventsList {
    let events = all
        .iter()
        .filter(|e| {
            let t = e.get_timestamp().unwrap();
            f.start <= t && t < f.end
        })
        .cloned()
        .collect();
    ReportEventsList { events, next_page_timestamp: None }
}

#[test]
fn fights_with_the_name_are_analysed_in_order() {
    let defs = collection();
    let list = report(
        vec![fight(1, Some("Boss"), 100, 900), fight(2, Some("Other"), 1000, 1500), fight(3, Some("Boss"), 2000, 2600)],
        Some(1_000_000),
        Some(2_000_000),
    );
    let name = "Boss".to_string();
    let mut run = analyse_fights_by_name(&"code".to_string(), &name, &list, &defs).unwrap();
    assert_eq!(run.fight_windows(), &vec![(100, 900), (2000, 2600)]);
    let phases = defs.get(&name).unwrap();
    let all = vec![event_at(150), event_at(1200), event_at(2100)];
    let mut step = run.step(phases);
    let analysis = loop {
        match step {
            ReportStep::Fetch(_, f) => step = run.deliver(phases, Ok(answer(&all, &f))),
            ReportStep::Finished(r) => break r.unwrap(),
        }
    };
    assert_eq!(analysis.report_start, 1_000_000);
    assert_eq!(analysis.fights.len(), 2);
    assert_eq!(analysis.fights[0].phases[0].phase_start, 150);
    assert_eq!(analysis.fights[1].phases[0].phase_start, 2100);
    let stats = get_report_stats(&analysis, phases);
    assert_eq!(stats.len(), 2);
    assert_eq!(stats[1].fight_start, Some(1_002_000));
    assert_eq!(stats[0].prog[0].phase_duration_millis, 750);
    assert_eq!(stats[0].prog[0].phase_cleared, ClearedStatus::Unknown);
}

#[test]
fn unknown_encounter_is_reported() {
    let list = report(vec![fight(1, Some("Nobody"), 0, 10)], Some(0), Some(10));
    let err = analyse_fights_by_name(&"code".to_string(), &"Nobody".to_string(), &list, &collection()).err();
    assert_eq!(err, Some(AnalysisError::UnknownFightError("Nobody".to_string())));
}

#[test]
fn missing_report_times_are_reported() {
    let list = report(vec![fight(1, Some("Boss"), 0, 10)], None, Some(10));
    let err = analyse_fights_by_name(&"code".to_string(), &"Boss".to_string(), &list, &collection()).err();
    assert_eq!(err, Some(AnalysisError::UnspecifiedFightTime));
}

#[test]
fn no_matching_fight_is_reported() {
    let list = report(vec![fight(1, None, 0, 10), fight(2, Some("Other"), 10, 20)], Some(0), Some(10));
    let err = analyse_fights_by_name(&"code".to_string(), &"Boss".to_string(), &list, &collection()).err();
    assert_eq!(err, Some(AnalysisError::NoMatchingFights));
}

#[test]
fn a_fight_ending_before_it_starts_is_reported() {
    let list = report(vec![fight(1, Some("Boss"), 50, 10)], Some(0), Some(100));
    let err = analyse_fights_by_name(&"code".to_string(), &"Boss".to_string(), &list, &collection()).err();
    assert_eq!(err, Some(AnalysisError::UnspecifiedFightTime));
}

#[test]
fn report_code_from_url_or_bare_code() {
    assert_eq!(
        convert_report_code(&"https://www.fflogs.com/reports/AbCdEfGh12345678#fight=3".to_string()),
        Ok("AbCdEfGh12345678".to_string())
    );
    assert_eq!(convert_report_code(&"  ZyXwVuTs98765432 ".to_string()), Ok("ZyXwVuTs98765432".to_string()));
    assert_eq!(
        convert_report_code(&"xxxxxxxxxxxxxxxxxxxx fflogs.com/reports/QQQQQQQQQQQQQQQQ".to_string()),
        Ok("QQQQQQQQQQQQQQQQ".to_string())
    );
    assert_eq!(convert_report_code(&"short".to_string()), Err(AnalysisError::InvalidReportCodeOrUrl));
}

#[test]
fn fight_list_path_names_the_report() {
    assert_eq!(construct_path(&"AbCd".to_string()), "/v1/report/fights/AbCd");
}
