//! Per-fight phase progress and the report-wide statistics built from it.
use vstd::prelude::*;

use chrono::TimeZone;

use crate::assembler::{FightAnalysis, RawPhaseData, ReportAnalysis};
use crate::phase_definition::PhaseDefinitionsPhase;

verus! {

/// How a phase ended in one fight.
#[derive(Debug, Clone, Copy, PartialEq, Eq, Structural)]
pub enum ClearedStatus {
    Clear,
    Wiped,
    Unknown,
}

/// One phase of one fight: how long it lasted and how it ended.
#[derive(Debug, Clone, PartialEq)]
pub struct PhaseProgress {
    pub phase_name: String,
    pub phase_duration_millis: u64,
    pub phase_cleared: ClearedStatus,
}

/// The progress made in one fight.
#[derive(Debug, Clone, PartialEq)]
pub struct FightStatistics {
    pub fight_name: String,
    /// The fight's start, in milliseconds since the Unix epoch, where it is a
    /// representable UTC date-time.
    pub fight_start: Option<i64>,
    /// The fight's end, likewise.
    pub fight_end: Option<i64>,
    pub duration_millis: u64,
    pub prog: Vec<PhaseProgress>,
}

/// The last millisecond since the Unix epoch that chrono represents as a UTC
/// date-time: the end of December 31 of the year 262142.
pub const MAX_UTC_MILLIS: i64 = 8210266876799999;

/// Relies on chrono's `TimeZone::timestamp_millis_opt` for `Utc`: it gives a
/// single date-time exactly for the days of its date range, whose last day ends
/// at `MAX_UTC_MILLIS`.
#[verifier::external_body]
fn utc_timestamp_valid(ms: i64) -> (r: bool)
    requires
        ms >= 0,
    ensures
        r == (ms <= MAX_UTC_MILLIS),
{
    chrono::Utc.timestamp_millis_opt(ms).single().is_some()
}

/// The wall-clock time of an offset into a report that started at `base`.
pub open spec fn wall_clock(offset: u64, base: u64) -> Option<i64> {
    if offset + base <= MAX_UTC_MILLIS {
        Some((offset + base) as i64)
    } else {
        None
    }
}

fn to_wall_clock(offset: u64, base: u64) -> (r: Option<i64>)
    ensures
        r == wall_clock(offset, base),
{
    match offset.checked_add(base) {
        Some(t) => if t <= i64::MAX as u64 && utc_timestamp_valid(t as i64) {
            Some(t as i64)
        } else {
            None
        },
        None => None,
    }
}

/// Some definition before the last one carries this name.
pub open spec fn defined_before_last(defs: Seq<PhaseDefinitionsPhase>, name: Seq<char>) -> bool {
    exists|j: int| 0 <= j < defs.len() - 1 && #[trigger] defs[j].phase_name@ == name
}

/// The duration of the phase at `i` of a fight ending at `fight_end`.
pub open spec fn phase_duration(phases: Seq<RawPhaseData>, i: int, fight_end: u64) -> int {
    let p = phases[i];
    if i + 1 < phases.len() {
        match p.phase_end {
            Some(e) => e - p.phase_start,
            None => phases[i + 1].phase_start - p.phase_start,
        }
    } else {
        match p.phase_end {
            Some(e) => e - p.phase_start,
            None => fight_end - p.phase_start,
        }
    }
}

/// How the phase at `i` ended: a phase with a successor or a known end was
/// cleared; a last phase without an end was wiped on if a later phase is defined,
/// and is unknown otherwise.
pub open spec fn phase_status(
    phases: Seq<RawPhaseData>,
    i: int,
    defs: Seq<PhaseDefinitionsPhase>,
) -> ClearedStatus {
    if i + 1 < phases.len() || phases[i].phase_end is Some {
        ClearedStatus::Clear
    } else if defined_before_last(defs, phases[i].phase_name@) {
        ClearedStatus::Wiped
    } else {
        ClearedStatus::Unknown
    }
}

fn is_defined_before_last(defs: &Vec<PhaseDefinitionsPhase>, name: &String) -> (r: bool)
    ensures
        r == defined_before_last(defs@, name@),
{
    let n = defs.len();
    if n == 0 {
        return false;
    }
    let mut j: usize = 0;
    while j < n - 1
        invariant
            n == defs@.len(),
            n > 0,
            0 <= j <= n - 1,
            forall|k: int| 0 <= k < j ==> #[trigger] defs@[k].phase_name@ != name@,
        decreases n - j,
    {
        if defs[j].phase_name == *name {
            return true;
        }
        j = j + 1;
    }
    false
}

/// Every duration of the fight is defined: the fight ends no earlier than it
/// starts, a phase ends no earlier than it starts, a phase without end starts no
/// later than the next phase, and the last one no later than the fight's end.
pub open spec fn durations_defined(raw: FightAnalysis) -> bool {
    let ps = raw.phases@;
    &&& raw.start_time <= raw.end_time
    &&& forall|i: int|
        0 <= i < ps.len() ==> (#[trigger] ps[i].phase_end matches Some(e) ==> ps[i].phase_start <= e)
    &&& forall|i: int|
        0 <= i < ps.len() - 1 ==> ((#[trigger] ps[i]).phase_end is None ==> ps[i].phase_start
            <= ps[i + 1].phase_start)
    &&& ps.len() > 0 && ps.last().phase_end is None ==> ps.last().phase_start <= raw.end_time
}

/// `r` is the progress of the fight `raw`, phase by phase.
pub open spec fn pull_stats_of(
    r: FightStatistics,
    raw: FightAnalysis,
    defs: Seq<PhaseDefinitionsPhase>,
    report_start_millis: u64,
) -> bool {
    &&& r.fight_name == raw.fight_name
    &&& r.fight_start == wall_clock(raw.start_time, report_start_millis)
    &&& r.fight_end == wall_clock(raw.end_time, report_start_millis)
    &&& r.duration_millis == raw.end_time - raw.start_time
    &&& r.prog@.len() == raw.phases@.len()
    &&& forall|i: int|
        0 <= i < r.prog@.len() ==> {
            &&& (#[trigger] r.prog@[i]).phase_name == raw.phases@[i].phase_name
            &&& r.prog@[i].phase_duration_millis == phase_duration(raw.phases@, i, raw.end_time)
            &&& r.prog@[i].phase_cleared == phase_status(raw.phases@, i, defs)
        }
}

/// The progress of one fight: the duration and outcome of each phase it reached,
/// and its wall-clock start and end in a report that started at
/// `report_start_millis`.
pub fn get_pull_stats(
    raw_data: &FightAnalysis,
    definitions: &Vec<PhaseDefinitionsPhase>,
    report_start_millis: u64,
) -> (r: FightStatistics)
    requires
        durations_defined(*raw_data),
    ensures
        pull_stats_of(r, *raw_data, definitions@, report_start_millis),
{
    let phases = &raw_data.phases;
    let n = phases.len();
    let mut prog: Vec<PhaseProgress> = Vec::new();
    let mut i: usize = 0;
    while i < n
        invariant
            n == phases@.len(),
            durations_defined(*raw_data),
            phases == &raw_data.phases,
            0 <= i <= n,
            prog@.len() == i,
            forall|k: int|
                0 <= k < i ==> {
                    &&& (#[trigger] prog@[k]).phase_name == phases@[k].phase_name
                    &&& prog@[k].phase_duration_millis == phase_duration(
                        phases@,
                        k,
                        raw_data.end_time,
                    )
                    &&& prog@[k].phase_cleared == phase_status(phases@, k, definitions@)
                },
        decreases n - i,
    {
        let phase = &phases[i];
        let duration: u64;
        let cleared: ClearedStatus;
        if i + 1 < n {
            duration = match phase.phase_end {
                Some(e) => e - phase.phase_start,
                None => phases[i + 1].phase_start - phase.phase_start,
            };
            cleared = ClearedStatus::Clear;
        } else {
            match phase.phase_end {
                Some(e) => {
                    duration = e - phase.phase_start;
                    cleared = ClearedStatus::Clear;
                },
                None => {
                    duration = raw_data.end_time - phase.phase_start;
                    cleared = if is_defined_before_last(definitions, &phase.phase_name) {
                        ClearedStatus::Wiped
                    } else {
                        ClearedStatus::Unknown
                    };
                },
            }
        }
        prog.push(
            PhaseProgress {
                phase_name: phase.phase_name.clone(),
                phase_duration_millis: duration,
                phase_cleared: cleared,
            },
        );
        i = i + 1;
    }
    FightStatistics {
        fight_name: raw_data.fight_name.clone(),
        fight_start: to_wall_clock(raw_data.start_time, report_start_millis),
        fight_end: to_wall_clock(raw_data.end_time, report_start_millis),
        duration_millis: raw_data.end_time - raw_data.start_time,
        prog,
    }
}

/// The progress of every fight of a report, in order.
pub fn get_report_stats(raw_data: &ReportAnalysis, definitions: &Vec<PhaseDefinitionsPhase>) -> (r:
    Vec<FightStatistics>)
    requires
        forall|i: int|
            0 <= i < raw_data.fights@.len() ==> durations_defined(#[trigger] raw_data.fights@[i]),
    ensures
        r@.len() == raw_data.fights@.len(),
        forall|i: int|
            0 <= i < r@.len() ==> pull_stats_of(
                #[trigger] r@[i],
                raw_data.fights@[i],
                definitions@,
                raw_data.report_start,
            ),
{
    let mut res: Vec<FightStatistics> = Vec::new();
    let mut i: usize = 0;
    while i < raw_data.fights.len()
        invariant
            0 <= i <= raw_data.fights@.len(),
            res@.len() == i,
            forall|k: int|
                0 <= k < raw_data.fights@.len() ==> durations_defined(#[trigger] raw_data.fights@[k]),
            forall|k: int|
                0 <= k < i ==> pull_stats_of(
                    #[trigger] res@[k],
                    raw_data.fights@[k],
                    definitions@,
                    raw_data.report_start,
                ),
        decreases raw_data.fights@.len() - i,
    {
        let stats = get_pull_stats(&raw_data.fights[i], definitions, raw_data.report_start);
        res.push(stats);
        i = i + 1;
    }
    res
}

/// The first progress entry of the phase with this name.
pub open spec fn first_progress(prog: Seq<PhaseProgress>, name: Seq<char>) -> Option<PhaseProgress>
    decreases prog.len(),
{
    if prog.len() == 0 {
        None
    } else if prog[0].phase_name@ == name {
        Some(prog[0])
    } else {
        first_progress(prog.subrange(1, prog.len() as int), name)
    }
}

/// How many of the fights reached the phase.
pub open spec fn seen_in(fights: Seq<FightStatistics>, name: Seq<char>) -> nat
    decreases fights.len(),
{
    if fights.len() == 0 {
        0
    } else {
        seen_in(fights.drop_last(), name) + if first_progress(fights.last().prog@, name) is Some {
            1nat
        } else {
            0nat
        }
    }
}

/// How many of the fights cleared the phase.
pub open spec fn cleared_in(fights: Seq<FightStatistics>, name: Seq<char>) -> nat
    decreases fights.len(),
{
    if fights.len() == 0 {
        0
    } else {
        cleared_in(fights.drop_last(), name) + match first_progress(fights.last().prog@, name) {
            Some(p) => if p.phase_cleared == ClearedStatus::Clear {
                1nat
            } else {
                0nat
            },
            None => 0nat,
        }
    }
}

/// The time the fights spent in the phase, in milliseconds.
pub open spec fn time_in(fights: Seq<FightStatistics>, name: Seq<char>) -> nat
    decreases fights.len(),
{
    if fights.len() == 0 {
        0
    } else {
        time_in(fights.drop_last(), name) + match first_progress(fights.last().prog@, name) {
            Some(p) => p.phase_duration_millis as nat,
            None => 0nat,
        }
    }
}

/// The time the fights lasted, in milliseconds.
pub open spec fn total_duration(fights: Seq<FightStatistics>) -> nat
    decreases fights.len(),
{
    if fights.len() == 0 {
        0
    } else {
        total_duration(fights.drop_last()) + fights.last().duration_millis as nat
    }
}

proof fn lemma_prefix_sums(fights: Seq<FightStatistics>, i: int, name: Seq<char>)
    requires
        0 <= i <= fights.len(),
    ensures
        time_in(fights.take(i), name) <= time_in(fights, name),
        total_duration(fights.take(i)) <= total_duration(fights),
    decreases fights.len() - i,
{
    if i < fights.len() {
        lemma_prefix_sums(fights, i + 1, name);
        assert(fights.take(i + 1).drop_last() =~= fights.take(i));
    } else {
        assert(fights.take(i) =~= fights);
    }
}

proof fn lemma_counts_bounded(fights: Seq<FightStatistics>, name: Seq<char>)
    ensures
        seen_in(fights, name) <= fights.len(),
        cleared_in(fights, name) <= seen_in(fights, name),
    decreases fights.len(),
{
    if fights.len() > 0 {
        lemma_counts_bounded(fights.drop_last(), name);
    }
}

fn find_progress(prog: &Vec<PhaseProgress>, name: &String) -> (r: Option<usize>)
    ensures
        match r {
            Some(k) => k < prog@.len() && first_progress(prog@, name@) == Some(prog@[k as int]),
            None => first_progress(prog@, name@) is None,
        },
{
    let mut k: usize = 0;
    assert(prog@.subrange(0, prog@.len() as int) =~= prog@);
    while k < prog.len()
        invariant
            0 <= k <= prog@.len(),
            first_progress(prog@, name@) == first_progress(
                prog@.subrange(k as int, prog@.len() as int),
                name@,
            ),
        decreases prog@.len() - k,
    {
        let ghost rest = prog@.subrange(k as int, prog@.len() as int);
        assert(rest[0] == prog@[k as int]);
        if prog[k].phase_name == *name {
            return Some(k);
        }
        assert(rest.subrange(1, rest.len() as int) =~= prog@.subrange(
            k + 1,
            prog@.len() as int,
        ));
        k = k + 1;
    }
    None
}

/// The statistics of one phase over every fight of a report.
#[derive(Debug, Clone, PartialEq)]
pub struct PhaseStatistics {
    pub name: String,
    pub total_time_spent_millis: u64,
    /// The fights that cleared the phase; the clear rate is this over `seen_count`.
    pub cleared_count: u64,
    /// The fights that reached the phase; the seen rate is this over `pull_count`.
    pub seen_count: u64,
    pub pull_count: u64,
}

/// The statistics of a report: each defined phase in order, and the fights overall.
#[derive(Debug, Clone, PartialEq)]
pub struct ReportSummary {
    pub phases: Vec<PhaseStatistics>,
    /// The mean fight duration, rounded down; zero without fights.
    pub average_duration_millis: u64,
    pub pull_count: u64,
    pub total_time_spent_in_fights_millis: u64,
}

/// `s` holds the statistics of the phase named `name` over `fights`.
pub open spec fn phase_stats_of(s: PhaseStatistics, fights: Seq<FightStatistics>, name: Seq<char>) -> bool {
    &&& s.name@ == name
    &&& s.total_time_spent_millis == time_in(fights, name)
    &&& s.cleared_count == cleared_in(fights, name)
    &&& s.seen_count == seen_in(fights, name)
    &&& s.pull_count == fights.len()
}

/// The statistics of one phase over the fights.
pub fn phase_statistics(fight_stats: &Vec<FightStatistics>, name: &String) -> (r: PhaseStatistics)
    requires
        time_in(fight_stats@, name@) <= u64::MAX,
    ensures
        phase_stats_of(r, fight_stats@, name@),
{
    let mut time: u64 = 0;
    let mut seen: u64 = 0;
    let mut cleared: u64 = 0;
    let mut i: usize = 0;
    while i < fight_stats.len()
        invariant
            0 <= i <= fight_stats@.len(),
            time_in(fight_stats@, name@) <= u64::MAX,
            time == time_in(fight_stats@.take(i as int), name@),
            seen == seen_in(fight_stats@.take(i as int), name@),
            cleared == cleared_in(fight_stats@.take(i as int), name@),
        decreases fight_stats@.len() - i,
    {
        proof {
            lemma_prefix_sums(fight_stats@, i as int + 1, name@);
            lemma_counts_bounded(fight_stats@.take(i as int), name@);
            assert(fight_stats@.take(i as int + 1).drop_last() =~= fight_stats@.take(i as int));
        }
        let fight = &fight_stats[i];
        match find_progress(&fight.prog, name) {
            Some(k) => {
                let p = &fight.prog[k];
                time = time + p.phase_duration_millis;
                seen = seen + 1;
                if p.phase_cleared == ClearedStatus::Clear {
                    cleared = cleared + 1;
                }
            },
            None => {},
        }
        i = i + 1;
    }
    proof {
        assert(fight_stats@.take(fight_stats@.len() as int) =~= fight_stats@);
    }
    PhaseStatistics {
        name: name.clone(),
        total_time_spent_millis: time,
        cleared_count: cleared,
        seen_count: seen,
        pull_count: fight_stats.len() as u64,
    }
}

/// The statistics of a report: per defined phase, in definition order, how many
/// fights reached it, how many cleared it and the time spent in it; overall, the
/// number of fights, their total and their mean duration. Without fights every
/// figure is zero and no phase is listed.
pub fn summarise_report(
    fight_stats: &Vec<FightStatistics>,
    definitions: &Vec<PhaseDefinitionsPhase>,
) -> (r: ReportSummary)
    requires
        total_duration(fight_stats@) <= u64::MAX,
        forall|j: int|
            0 <= j < definitions@.len() ==> time_in(
                fight_stats@,
                (#[trigger] definitions@[j]).phase_name@,
            ) <= u64::MAX,
    ensures
        r.pull_count == fight_stats@.len(),
        r.total_time_spent_in_fights_millis == total_duration(fight_stats@),
        fight_stats@.len() == 0 ==> r.average_duration_millis == 0 && r.phases@.len() == 0,
        fight_stats@.len() > 0 ==> {
            &&& r.average_duration_millis == total_duration(fight_stats@) / fight_stats@.len()
            &&& r.phases@.len() == definitions@.len()
            &&& forall|j: int|
                0 <= j < r.phases@.len() ==> phase_stats_of(
                    #[trigger] r.phases@[j],
                    fight_stats@,
                    definitions@[j].phase_name@,
                )
        },
{
    let n = fight_stats.len();
    if n == 0 {
        return ReportSummary {
            phases: Vec::new(),
            average_duration_millis: 0,
            pull_count: 0,
            total_time_spent_in_fights_millis: 0,
        };
    }
    let mut phases: Vec<PhaseStatistics> = Vec::new();
    let mut j: usize = 0;
    while j < definitions.len()
        invariant
            0 <= j <= definitions@.len(),
            phases@.len() == j,
            forall|k: int|
                0 <= k < definitions@.len() ==> time_in(
                    fight_stats@,
                    (#[trigger] definitions@[k]).phase_name@,
                ) <= u64::MAX,
            forall|k: int|
                0 <= k < j ==> phase_stats_of(
                    #[trigger] phases@[k],
                    fight_stats@,
                    definitions@[k].phase_name@,
                ),
        decreases definitions@.len() - j,
    {
        let stats = phase_statistics(fight_stats, &definitions[j].phase_name);
        phases.push(stats);
        j = j + 1;
    }
    let mut total: u64 = 0;
    let mut i: usize = 0;
    while i < n
        invariant
            n == fight_stats@.len(),
            0 <= i <= n,
            total_duration(fight_stats@) <= u64::MAX,
            total == total_duration(fight_stats@.take(i as int)),
        decreases n - i,
    {
        proof {
            lemma_prefix_sums(fight_stats@, i as int + 1, Seq::empty());
            assert(fight_stats@.take(i as int + 1).drop_last() =~= fight_stats@.take(i as int));
        }
        total = total + fight_stats[i].duration_millis;
        i = i + 1;
    }
    proof {
        assert(fight_stats@.take(n as int) =~= fight_stats@);
    }
    ReportSummary {
        phases,
        average_duration_millis: total / (n as u64),
        pull_count: n as u64,
        total_time_spent_in_fights_millis: total,
    }
}

} // verus!
