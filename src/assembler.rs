//! The phase assembler: resolves the start and end of each defined phase of one
//! fight, in order, then fills in the ends that were not found.
//!
//! It does no I/O: `step` and `deliver` say which page to fetch next, and the
//! caller hands each outcome back.
use vstd::prelude::*;

use crate::errors::{AnalysisError, ApiError};
use crate::events::ReportEvent;
use crate::events::event_timestamp;
use crate::phase_definition::{
    marker_filters, marker_view, search_spec, MarkerSearch, PhaseDefinitionsPhase, PhaseMarker,
    SearchOutcome, SearchStep,
};
use crate::query::rewindowed;
use crate::query::{EventFilters, EventsView, ReportEventsList};
use crate::stream::in_window;

verus! {

/// The resolved bounds of one phase of one fight.
#[derive(Debug, Clone, PartialEq)]
pub struct RawPhaseData {
    pub phase_name: String,
    pub phase_start: u64,
    pub phase_start_event: ReportEvent,
    pub phase_end: Option<u64>,
    pub phase_end_event: Option<ReportEvent>,
}

/// Where the next phase's search begins once this one is resolved: its end if
/// known, else its start.
pub open spec fn phase_reach(p: RawPhaseData) -> u64 {
    match p.phase_end {
        Some(e) => e,
        None => p.phase_start,
    }
}

/// The phase lies in `[start, end]` and ends no earlier than it starts.
pub open spec fn phase_within(p: RawPhaseData, start: u64, end: u64) -> bool {
    &&& start <= p.phase_start <= end
    &&& p.phase_end matches Some(e) ==> p.phase_start <= e <= end
}

/// Each phase lies in `[start, end]`, and the next phase starts no earlier than
/// this one reaches.
pub open spec fn phases_ordered(phases: Seq<RawPhaseData>, start: u64, end: u64) -> bool {
    &&& forall|i: int| 0 <= i < phases.len() ==> phase_within(#[trigger] phases[i], start, end)
    &&& forall|i: int|
        0 <= i < phases.len() - 1 ==> phase_reach(#[trigger] phases[i]) <= phases[i + 1].phase_start
}

/// The phases are the first ones defined, by name and in order.
pub open spec fn names_match(phases: Seq<RawPhaseData>, defs: Seq<PhaseDefinitionsPhase>) -> bool {
    &&& phases.len() <= defs.len()
    &&& forall|i: int| 0 <= i < phases.len() ==> #[trigger] phases[i].phase_name@ == defs[i].phase_name@
}

/// The phase at `i` once its missing end, unless it is the last phase, is set to
/// the start of the phase after it.
pub open spec fn backfill_entry(old: Seq<RawPhaseData>, i: int) -> RawPhaseData {
    if i + 1 < old.len() && old[i].phase_end is None {
        RawPhaseData {
            phase_end: Some(old[i + 1].phase_start),
            phase_end_event: Some(old[i + 1].phase_start_event),
            ..old[i]
        }
    } else {
        old[i]
    }
}

/// `new` is `old` with each missing end but the last one's filled in.
pub open spec fn backfilled(old: Seq<RawPhaseData>, new: Seq<RawPhaseData>) -> bool {
    &&& new.len() == old.len()
    &&& forall|i: int| 0 <= i < old.len() ==> #[trigger] new[i] == backfill_entry(old, i)
}

/// Sets each missing end, but the last phase's, to the start of the next phase,
/// with that phase's start event as its boundary event.
pub fn backfill_phase_ends(phases: &mut Vec<RawPhaseData>)
    ensures
        backfilled(old(phases)@, final(phases)@),
{
    let n = phases.len();
    if n == 0 {
        proof {
            assert(phases@ =~= old(phases)@);
        }
        return;
    }
    let mut i: usize = 0;
    while i < n - 1
        invariant
            n == phases@.len(),
            n == old(phases)@.len(),
            n > 0,
            0 <= i <= n - 1,
            forall|j: int| i <= j < n ==> #[trigger] phases@[j] == old(phases)@[j],
            forall|j: int| 0 <= j < i ==> #[trigger] phases@[j] == backfill_entry(old(phases)@, j),
        decreases n - i,
    {
        if phases[i].phase_end.is_none() {
            let filled = RawPhaseData {
                phase_name: phases[i].phase_name.clone(),
                phase_start: phases[i].phase_start,
                phase_start_event: phases[i].phase_start_event.duplicate(),
                phase_end: Some(phases[i + 1].phase_start),
                phase_end_event: Some(phases[i + 1].phase_start_event.duplicate()),
            };
            phases.set(i, filled);
        }
        assert(phases@[i as int] == backfill_entry(old(phases)@, i as int));
        i = i + 1;
    }
    assert(phases@[n - 1] == backfill_entry(old(phases)@, n - 1));
}

/// The backfilled phases of an ordered list keep its order, and every phase but
/// the last has an end.
pub proof fn lemma_backfill_ordered(
    old: Seq<RawPhaseData>,
    new: Seq<RawPhaseData>,
    start: u64,
    end: u64,
)
    requires
        phases_ordered(old, start, end),
        backfilled(old, new),
    ensures
        phases_ordered(new, start, end),
        forall|i: int| 0 <= i < new.len() - 1 ==> (#[trigger] new[i]).phase_end is Some,
{
    assert forall|i: int| 0 <= i < new.len() - 1 implies phase_reach(#[trigger] new[i])
        <= new[i + 1].phase_start by {
        assert(new[i] == backfill_entry(old, i));
        assert(new[i + 1] == backfill_entry(old, i + 1));
        assert(phase_reach(old[i]) <= old[i + 1].phase_start);
        assert(phase_within(old[i + 1], start, end));
    }
    assert forall|i: int| 0 <= i < new.len() implies phase_within(#[trigger] new[i], start, end) by {
        assert(new[i] == backfill_entry(old, i));
        assert(phase_within(old[i], start, end));
        if i + 1 < old.len() {
            assert(phase_reach(old[i]) <= old[i + 1].phase_start);
            assert(phase_within(old[i + 1], start, end));
        }
    }
    assert forall|i: int| 0 <= i < new.len() - 1 implies (#[trigger] new[i]).phase_end is Some by {
        assert(new[i] == backfill_entry(old, i));
    }
}

/// The analysis of one fight: its resolved phases, in definition order.
#[derive(Debug)]
pub struct FightAnalysis {
    pub fight_name: String,
    pub report_code: String,
    pub start_time: u64,
    pub end_time: u64,
    pub phases: Vec<RawPhaseData>,
}

impl FightAnalysis {
    /// The fight's phases are a prefix of its definitions, ordered within the
    /// fight, and every phase but the last has an end.
    pub open spec fn wf(&self, defs: Seq<PhaseDefinitionsPhase>) -> bool {
        &&& self.start_time <= self.end_time
        &&& names_match(self.phases@, defs)
        &&& phases_ordered(self.phases@, self.start_time, self.end_time)
        &&& forall|i: int|
            0 <= i < self.phases@.len() - 1 ==> (#[trigger] self.phases@[i]).phase_end is Some
    }
}

/// The analyses of every matching fight of a report.
#[derive(Debug)]
pub struct ReportAnalysis {
    pub report_code: String,
    pub report_start: u64,
    pub report_end: u64,
    pub fights: Vec<FightAnalysis>,
}

/// Which bound of the current phase is being looked for.
#[derive(Debug, Clone, Copy, PartialEq, Eq, Structural)]
pub enum AssemblyStage {
    SeekStart,
    SeekEnd,
}

/// What one step of an assembly gives.
#[derive(Debug)]
pub enum AssemblyStep {
    /// Fetch this page, then hand the outcome to `deliver`.
    Fetch(EventsView, EventFilters),
    /// The assembly is over.
    Finished(Result<FightAnalysis, AnalysisError>),
}

/// Where an assembly stands once the page results it was handed are read.
pub enum AssemblyOutcome {
    /// This page has to be fetched first.
    NeedsPage(EventsView, EventFilters),
    /// The phases of the fight, or the error that ended the assembly.
    Done(Result<Seq<RawPhaseData>, AnalysisError>),
}

/// Every phase's missing end, but the last one's, filled in.
pub open spec fn backfill_all(phases: Seq<RawPhaseData>) -> Seq<RawPhaseData> {
    Seq::new(phases.len(), |i: int| backfill_entry(phases, i))
}

/// A phase that starts at `start` with `start_event` and ends at the event its
/// end search found, if any.
pub open spec fn phase_record(
    name: String,
    start: u64,
    start_event: ReportEvent,
    end_event: Option<ReportEvent>,
) -> RawPhaseData {
    RawPhaseData {
        phase_name: name,
        phase_start: start,
        phase_start_event: start_event,
        phase_end: match end_event {
            Some(ev) => event_timestamp(ev),
            None => None,
        },
        phase_end_event: end_event,
    }
}

/// The assembly from definition `i` on, in a fight ending at `end`, reading the
/// page results `rs` as the searches need them. Without `seek_end` the phase's
/// start is searched from `cursor` on (a phase without start marker starts at
/// `cursor`); a start marker with no match ends the assembly there. With
/// `seek_end` the phase started at `start` with `start_event`, and its end is
/// searched from `start` on. The next phase's search starts where this one ended,
/// or at its start. At the end the missing ends are filled in.
#[verifier::opaque]
pub open spec fn assembly_model(
    defs: Seq<PhaseDefinitionsPhase>,
    end: u64,
    i: nat,
    seek_end: bool,
    cursor: u64,
    start: u64,
    start_event: ReportEvent,
    phases: Seq<RawPhaseData>,
    rs: Seq<Result<ReportEventsList, ApiError>>,
) -> AssemblyOutcome
    decreases defs.len() - i, if seek_end {
        0int
    } else {
        1int
    },
{
    if i >= defs.len() {
        AssemblyOutcome::Done(Ok(backfill_all(phases)))
    } else if !seek_end {
        match defs[i as int].start_marker {
            None => assembly_model(
                defs,
                end,
                i,
                true,
                cursor,
                cursor,
                ReportEvent::UnparseableEvent,
                phases,
                rs,
            ),
            Some(m) => match search_spec(m, cursor, end, rs) {
                SearchOutcome::NeedsPage(c) => AssemblyOutcome::NeedsPage(
                    marker_view(m),
                    rewindowed(marker_filters(m), c, end),
                ),
                SearchOutcome::Failed(e) => AssemblyOutcome::Done(Err(AnalysisError::ApiError(e))),
                SearchOutcome::Found(None, _) => AssemblyOutcome::Done(Ok(backfill_all(phases))),
                SearchOutcome::Found(Some(ev), rest) => match event_timestamp(ev) {
                    None => AssemblyOutcome::Done(Err(AnalysisError::InvalidEventMatchError)),
                    Some(t) => assembly_model(defs, end, i, true, cursor, t, ev, phases, rest),
                },
            },
        }
    } else {
        let name = defs[i as int].phase_name;
        match defs[i as int].end_marker {
            None => assembly_model(
                defs,
                end,
                i + 1,
                false,
                start,
                start,
                start_event,
                phases.push(phase_record(name, start, start_event, None)),
                rs,
            ),
            Some(m) => match search_spec(m, start, end, rs) {
                SearchOutcome::NeedsPage(c) => AssemblyOutcome::NeedsPage(
                    marker_view(m),
                    rewindowed(marker_filters(m), c, end),
                ),
                SearchOutcome::Failed(e) => AssemblyOutcome::Done(Err(AnalysisError::ApiError(e))),
                SearchOutcome::Found(x, rest) => {
                    let p = phase_record(name, start, start_event, x);
                    assembly_model(
                        defs,
                        end,
                        i + 1,
                        false,
                        phase_reach(p),
                        start,
                        start_event,
                        phases.push(p),
                        rest,
                    )
                },
            },
        }
    }
}

/// The assembly of the phases of the fight `[start, end)` from its first
/// definition, given the results of the fetches it asks for, in order.
pub open spec fn fight_model(
    defs: Seq<PhaseDefinitionsPhase>,
    start: u64,
    end: u64,
    rs: Seq<Result<ReportEventsList, ApiError>>,
) -> AssemblyOutcome {
    assembly_model(defs, end, 0, false, start, start, ReportEvent::UnparseableEvent, Seq::empty(), rs)
}

/// The phases of a finished assembly, or its error.
pub open spec fn outcome_of(res: Result<FightAnalysis, AnalysisError>) -> Result<
    Seq<RawPhaseData>,
    AnalysisError,
> {
    match res {
        Ok(a) => Ok(a.phases@),
        Err(e) => Err(e),
    }
}

/// The fight's assembly after the results `delivered`, whatever follows them, is
/// the assembly from definition `i` on in the given state, after `since`.
#[verifier::opaque]
pub open spec fn tracks(
    defs: Seq<PhaseDefinitionsPhase>,
    start_time: u64,
    end_time: u64,
    delivered: Seq<Result<ReportEventsList, ApiError>>,
    i: nat,
    seek_end: bool,
    cursor: u64,
    start: u64,
    start_event: ReportEvent,
    phases: Seq<RawPhaseData>,
    since: Seq<Result<ReportEventsList, ApiError>>,
) -> bool {
    forall|rs: Seq<Result<ReportEventsList, ApiError>>| #[trigger]
        fight_model(defs, start_time, end_time, delivered + rs) == assembly_model(
            defs,
            end_time,
            i,
            seek_end,
            cursor,
            start,
            start_event,
            phases,
            since + rs,
        )
}

proof fn lemma_tracks_init(defs: Seq<PhaseDefinitionsPhase>, start_time: u64, end_time: u64)
    ensures
        tracks(
            defs,
            start_time,
            end_time,
            Seq::empty(),
            0,
            false,
            start_time,
            start_time,
            ReportEvent::UnparseableEvent,
            Seq::empty(),
            Seq::empty(),
        ),
{
    reveal(tracks);
    assert forall|rs: Seq<Result<ReportEventsList, ApiError>>| #[trigger]
        fight_model(defs, start_time, end_time, Seq::empty() + rs) == assembly_model(
            defs,
            end_time,
            0,
            false,
            start_time,
            start_time,
            ReportEvent::UnparseableEvent,
            Seq::empty(),
            Seq::empty() + rs,
        ) by {
        assert(Seq::<Result<ReportEventsList, ApiError>>::empty() + rs =~= rs);
    }
}

proof fn lemma_tracks_deliver(
    defs: Seq<PhaseDefinitionsPhase>,
    start_time: u64,
    end_time: u64,
    delivered: Seq<Result<ReportEventsList, ApiError>>,
    i: nat,
    seek_end: bool,
    cursor: u64,
    start: u64,
    start_event: ReportEvent,
    phases: Seq<RawPhaseData>,
    since: Seq<Result<ReportEventsList, ApiError>>,
    page: Result<ReportEventsList, ApiError>,
)
    requires
        tracks(defs, start_time, end_time, delivered, i, seek_end, cursor, start, start_event, phases, since),
    ensures
        tracks(
            defs,
            start_time,
            end_time,
            delivered.push(page),
            i,
            seek_end,
            cursor,
            start,
            start_event,
            phases,
            since.push(page),
        ),
{
    reveal(tracks);
    assert forall|rs: Seq<Result<ReportEventsList, ApiError>>| #[trigger]
        fight_model(defs, start_time, end_time, delivered.push(page) + rs) == assembly_model(
            defs,
            end_time,
            i,
            seek_end,
            cursor,
            start,
            start_event,
            phases,
            since.push(page) + rs,
        ) by {
        let rs1 = seq![page] + rs;
        assert(delivered.push(page) + rs =~= delivered + rs1);
        assert(since.push(page) + rs =~= since + rs1);
        assert(fight_model(defs, start_time, end_time, delivered + rs1) == assembly_model(
            defs,
            end_time,
            i,
            seek_end,
            cursor,
            start,
            start_event,
            phases,
            since + rs1,
        ));
    }
}

/// A phase without start marker starts at the cursor, with no start event.
proof fn lemma_no_start(
    defs: Seq<PhaseDefinitionsPhase>,
    start_time: u64,
    end_time: u64,
    delivered: Seq<Result<ReportEventsList, ApiError>>,
    i: nat,
    cursor: u64,
    start: u64,
    start_event: ReportEvent,
    phases: Seq<RawPhaseData>,
)
    requires
        tracks(defs, start_time, end_time, delivered, i, false, cursor, start, start_event, phases, Seq::empty()),
        i < defs.len(),
        defs[i as int].start_marker is None,
    ensures
        tracks(
            defs,
            start_time,
            end_time,
            delivered,
            i,
            true,
            cursor,
            cursor,
            ReportEvent::UnparseableEvent,
            phases,
            Seq::empty(),
        ),
{
    reveal(tracks);
    reveal(assembly_model);
    assert forall|rs: Seq<Result<ReportEventsList, ApiError>>| #[trigger]
        fight_model(defs, start_time, end_time, delivered + rs) == assembly_model(
            defs,
            end_time,
            i,
            true,
            cursor,
            cursor,
            ReportEvent::UnparseableEvent,
            phases,
            Seq::empty() + rs,
        ) by {
        assert(Seq::<Result<ReportEventsList, ApiError>>::empty() + rs =~= rs);
        assert(fight_model(defs, start_time, end_time, delivered + rs) == assembly_model(
            defs,
            end_time,
            i,
            false,
            cursor,
            start,
            start_event,
            phases,
            Seq::empty() + rs,
        ));
    }
}

/// A phase without end marker is recorded without end, and the next search
/// starts at its start.
proof fn lemma_no_end(
    defs: Seq<PhaseDefinitionsPhase>,
    start_time: u64,
    end_time: u64,
    delivered: Seq<Result<ReportEventsList, ApiError>>,
    i: nat,
    cursor: u64,
    start: u64,
    start_event: ReportEvent,
    phases: Seq<RawPhaseData>,
)
    requires
        tracks(defs, start_time, end_time, delivered, i, true, cursor, start, start_event, phases, Seq::empty()),
        i < defs.len(),
        defs[i as int].end_marker is None,
    ensures
        tracks(
            defs,
            start_time,
            end_time,
            delivered,
            i + 1,
            false,
            start,
            start,
            start_event,
            phases.push(phase_record(defs[i as int].phase_name, start, start_event, None)),
            Seq::empty(),
        ),
{
    reveal(tracks);
    reveal(assembly_model);
    assert forall|rs: Seq<Result<ReportEventsList, ApiError>>| #[trigger]
        fight_model(defs, start_time, end_time, delivered + rs) == assembly_model(
            defs,
            end_time,
            i + 1,
            false,
            start,
            start,
            start_event,
            phases.push(phase_record(defs[i as int].phase_name, start, start_event, None)),
            Seq::empty() + rs,
        ) by {
        assert(Seq::<Result<ReportEventsList, ApiError>>::empty() + rs =~= rs);
        assert(fight_model(defs, start_time, end_time, delivered + rs) == assembly_model(
            defs,
            end_time,
            i,
            true,
            cursor,
            start,
            start_event,
            phases,
            Seq::empty() + rs,
        ));
    }
}

/// A start marker's match starts the phase at its timestamp.
proof fn lemma_start_found(
    defs: Seq<PhaseDefinitionsPhase>,
    start_time: u64,
    end_time: u64,
    delivered: Seq<Result<ReportEventsList, ApiError>>,
    i: nat,
    cursor: u64,
    start: u64,
    start_event: ReportEvent,
    phases: Seq<RawPhaseData>,
    since: Seq<Result<ReportEventsList, ApiError>>,
    m: PhaseMarker,
    ev: ReportEvent,
    t: u64,
)
    requires
        tracks(defs, start_time, end_time, delivered, i, false, cursor, start, start_event, phases, since),
        i < defs.len(),
        defs[i as int].start_marker == Some(m),
        forall|rs: Seq<Result<ReportEventsList, ApiError>>| #[trigger]
            search_spec(m, cursor, end_time, since + rs) == SearchOutcome::Found(Some(ev), rs),
        event_timestamp(ev) == Some(t),
    ensures
        tracks(defs, start_time, end_time, delivered, i, true, cursor, t, ev, phases, Seq::empty()),
{
    reveal(tracks);
    reveal(assembly_model);
    assert forall|rs: Seq<Result<ReportEventsList, ApiError>>| #[trigger]
        fight_model(defs, start_time, end_time, delivered + rs) == assembly_model(
            defs,
            end_time,
            i,
            true,
            cursor,
            t,
            ev,
            phases,
            Seq::empty() + rs,
        ) by {
        assert(Seq::<Result<ReportEventsList, ApiError>>::empty() + rs =~= rs);
        assert(search_spec(m, cursor, end_time, since + rs) == SearchOutcome::Found(Some(ev), rs));
        assert(fight_model(defs, start_time, end_time, delivered + rs) == assembly_model(
            defs,
            end_time,
            i,
            false,
            cursor,
            start,
            start_event,
            phases,
            since + rs,
        ));
    }
}

/// A start marker without match ends the assembly with the phases so far.
proof fn lemma_start_unmatched(
    defs: Seq<PhaseDefinitionsPhase>,
    start_time: u64,
    end_time: u64,
    delivered: Seq<Result<ReportEventsList, ApiError>>,
    i: nat,
    cursor: u64,
    start: u64,
    start_event: ReportEvent,
    phases: Seq<RawPhaseData>,
    since: Seq<Result<ReportEventsList, ApiError>>,
    m: PhaseMarker,
)
    requires
        tracks(defs, start_time, end_time, delivered, i, false, cursor, start, start_event, phases, since),
        i < defs.len(),
        defs[i as int].start_marker == Some(m),
        forall|rs: Seq<Result<ReportEventsList, ApiError>>| #[trigger]
            search_spec(m, cursor, end_time, since + rs) == SearchOutcome::Found(None, rs),
    ensures
        forall|rs: Seq<Result<ReportEventsList, ApiError>>| #[trigger]
            fight_model(defs, start_time, end_time, delivered + rs) == AssemblyOutcome::Done(
                Ok(backfill_all(phases)),
            ),
{
    reveal(tracks);
    reveal(assembly_model);
    assert forall|rs: Seq<Result<ReportEventsList, ApiError>>| #[trigger]
        fight_model(defs, start_time, end_time, delivered + rs) == AssemblyOutcome::Done(
            Ok(backfill_all(phases)),
        ) by {
        assert(search_spec(m, cursor, end_time, since + rs) == SearchOutcome::Found(None, rs));
        assert(fight_model(defs, start_time, end_time, delivered + rs) == assembly_model(
            defs,
            end_time,
            i,
            false,
            cursor,
            start,
            start_event,
            phases,
            since + rs,
        ));
    }
}

/// An end marker's answer closes the phase, and the next search starts where
/// the phase reaches.
proof fn lemma_end_found(
    defs: Seq<PhaseDefinitionsPhase>,
    start_time: u64,
    end_time: u64,
    delivered: Seq<Result<ReportEventsList, ApiError>>,
    i: nat,
    cursor: u64,
    start: u64,
    start_event: ReportEvent,
    phases: Seq<RawPhaseData>,
    since: Seq<Result<ReportEventsList, ApiError>>,
    m: PhaseMarker,
    x: Option<ReportEvent>,
)
    requires
        tracks(defs, start_time, end_time, delivered, i, true, cursor, start, start_event, phases, since),
        i < defs.len(),
        defs[i as int].end_marker == Some(m),
        forall|rs: Seq<Result<ReportEventsList, ApiError>>| #[trigger]
            search_spec(m, start, end_time, since + rs) == SearchOutcome::Found(x, rs),
    ensures
        ({
            let p = phase_record(defs[i as int].phase_name, start, start_event, x);
            tracks(
                defs,
                start_time,
                end_time,
                delivered,
                i + 1,
                false,
                phase_reach(p),
                start,
                start_event,
                phases.push(p),
                Seq::empty(),
            )
        }),
{
    reveal(tracks);
    reveal(assembly_model);
    let p = phase_record(defs[i as int].phase_name, start, start_event, x);
    assert forall|rs: Seq<Result<ReportEventsList, ApiError>>| #[trigger]
        fight_model(defs, start_time, end_time, delivered + rs) == assembly_model(
            defs,
            end_time,
            i + 1,
            false,
            phase_reach(p),
            start,
            start_event,
            phases.push(p),
            Seq::empty() + rs,
        ) by {
        assert(Seq::<Result<ReportEventsList, ApiError>>::empty() + rs =~= rs);
        assert(search_spec(m, start, end_time, since + rs) == SearchOutcome::Found(x, rs));
        assert(fight_model(defs, start_time, end_time, delivered + rs) == assembly_model(
            defs,
            end_time,
            i,
            true,
            cursor,
            start,
            start_event,
            phases,
            since + rs,
        ));
    }
}

/// The marker searched in a stage, and where its search starts.
pub open spec fn stage_marker(d: PhaseDefinitionsPhase, seek_end: bool) -> Option<PhaseMarker> {
    if seek_end {
        d.end_marker
    } else {
        d.start_marker
    }
}

/// A failed page ends the assembly with the source's error.
proof fn lemma_search_failed(
    defs: Seq<PhaseDefinitionsPhase>,
    start_time: u64,
    end_time: u64,
    delivered: Seq<Result<ReportEventsList, ApiError>>,
    i: nat,
    seek_end: bool,
    cursor: u64,
    start: u64,
    start_event: ReportEvent,
    phases: Seq<RawPhaseData>,
    since: Seq<Result<ReportEventsList, ApiError>>,
    m: PhaseMarker,
    from: u64,
    e: ApiError,
)
    requires
        tracks(defs, start_time, end_time, delivered, i, seek_end, cursor, start, start_event, phases, since),
        i < defs.len(),
        stage_marker(defs[i as int], seek_end) == Some(m),
        from == if seek_end {
            start
        } else {
            cursor
        },
        forall|rs: Seq<Result<ReportEventsList, ApiError>>| #[trigger]
            search_spec(m, from, end_time, since + rs) == SearchOutcome::Failed(e),
    ensures
        forall|rs: Seq<Result<ReportEventsList, ApiError>>| #[trigger]
            fight_model(defs, start_time, end_time, delivered + rs) == AssemblyOutcome::Done(
                Err(AnalysisError::ApiError(e)),
            ),
{
    reveal(tracks);
    reveal(assembly_model);
    assert forall|rs: Seq<Result<ReportEventsList, ApiError>>| #[trigger]
        fight_model(defs, start_time, end_time, delivered + rs) == AssemblyOutcome::Done(
            Err(AnalysisError::ApiError(e)),
        ) by {
        assert(search_spec(m, from, end_time, since + rs) == SearchOutcome::Failed(e));
        assert(fight_model(defs, start_time, end_time, delivered + rs) == assembly_model(
            defs,
            end_time,
            i,
            seek_end,
            cursor,
            start,
            start_event,
            phases,
            since + rs,
        ));
    }
}

/// A search that needs a page makes the assembly ask for it.
proof fn lemma_search_needs_page(
    defs: Seq<PhaseDefinitionsPhase>,
    start_time: u64,
    end_time: u64,
    delivered: Seq<Result<ReportEventsList, ApiError>>,
    i: nat,
    seek_end: bool,
    cursor: u64,
    start: u64,
    start_event: ReportEvent,
    phases: Seq<RawPhaseData>,
    since: Seq<Result<ReportEventsList, ApiError>>,
    m: PhaseMarker,
    from: u64,
    c: u64,
)
    requires
        tracks(defs, start_time, end_time, delivered, i, seek_end, cursor, start, start_event, phases, since),
        i < defs.len(),
        stage_marker(defs[i as int], seek_end) == Some(m),
        from == if seek_end {
            start
        } else {
            cursor
        },
        search_spec(m, from, end_time, since) == SearchOutcome::NeedsPage(c),
    ensures
        fight_model(defs, start_time, end_time, delivered) == AssemblyOutcome::NeedsPage(
            marker_view(m),
            rewindowed(marker_filters(m), c, end_time),
        ),
{
    reveal(tracks);
    reveal(assembly_model);
    let empty = Seq::<Result<ReportEventsList, ApiError>>::empty();
    assert(delivered + empty =~= delivered);
    assert(since + empty =~= since);
    assert(fight_model(defs, start_time, end_time, delivered + empty) == assembly_model(
        defs,
        end_time,
        i,
        seek_end,
        cursor,
        start,
        start_event,
        phases,
        since + empty,
    ));
}

/// With every definition resolved, the assembly is done.
proof fn lemma_all_resolved(
    defs: Seq<PhaseDefinitionsPhase>,
    start_time: u64,
    end_time: u64,
    delivered: Seq<Result<ReportEventsList, ApiError>>,
    i: nat,
    seek_end: bool,
    cursor: u64,
    start: u64,
    start_event: ReportEvent,
    phases: Seq<RawPhaseData>,
)
    requires
        tracks(defs, start_time, end_time, delivered, i, seek_end, cursor, start, start_event, phases, Seq::empty()),
        i >= defs.len(),
    ensures
        forall|rs: Seq<Result<ReportEventsList, ApiError>>| #[trigger]
            fight_model(defs, start_time, end_time, delivered + rs) == AssemblyOutcome::Done(
                Ok(backfill_all(phases)),
            ),
{
    reveal(tracks);
    reveal(assembly_model);
    assert forall|rs: Seq<Result<ReportEventsList, ApiError>>| #[trigger]
        fight_model(defs, start_time, end_time, delivered + rs) == AssemblyOutcome::Done(
            Ok(backfill_all(phases)),
        ) by {
        assert(fight_model(defs, start_time, end_time, delivered + rs) == assembly_model(
            defs,
            end_time,
            i,
            seek_end,
            cursor,
            start,
            start_event,
            phases,
            Seq::empty() + rs,
        ));
    }
}

/// The resolution of the phases of one fight, one definition after another.
pub struct PhaseAssembler {
    fight_name: String,
    report_code: String,
    start_time: u64,
    end_time: u64,
    definitions: Ghost<Seq<PhaseDefinitionsPhase>>,
    delivered: Ghost<Seq<Result<ReportEventsList, ApiError>>>,
    index: usize,
    cursor: u64,
    stage: AssemblyStage,
    current_start: u64,
    current_start_event: ReportEvent,
    search: Option<MarkerSearch>,
    phases: Vec<RawPhaseData>,
    done: bool,
}

impl PhaseAssembler {
    pub closed spec fn fight_name(&self) -> String {
        self.fight_name
    }

    pub closed spec fn report_code(&self) -> String {
        self.report_code
    }

    pub closed spec fn start_time(&self) -> u64 {
        self.start_time
    }

    pub closed spec fn end_time(&self) -> u64 {
        self.end_time
    }

    /// The phase definitions the fight is assembled with.
    pub closed spec fn definitions(&self) -> Seq<PhaseDefinitionsPhase> {
        self.definitions@
    }

    /// The results of the fetches handed back so far, in order.
    pub closed spec fn delivered(&self) -> Seq<Result<ReportEventsList, ApiError>> {
        self.delivered@
    }

    pub closed spec fn is_done(&self) -> bool {
        self.done
    }

    /// A fetch has been asked for and not yet handed back.
    pub closed spec fn awaiting(&self) -> bool {
        self.search matches Some(s) && s.awaiting()
    }

    /// The page results the current search has read.
    closed spec fn since(&self) -> Seq<Result<ReportEventsList, ApiError>> {
        match self.search {
            Some(s) => s.delivered(),
            None => Seq::empty(),
        }
    }

    /// The state tracks the fight's assembly, the current search having read `since`.
    closed spec fn tracks_since(&self, since: Seq<Result<ReportEventsList, ApiError>>) -> bool {
        tracks(
            self.definitions@,
            self.start_time,
            self.end_time,
            self.delivered@,
            self.index as nat,
            self.stage == AssemblyStage::SeekEnd,
            self.cursor,
            self.current_start,
            self.current_start_event,
            self.phases@,
            since,
        )
    }

    /// Holds while the assembly runs; a finished assembler holds nothing more.
    pub closed spec fn wf(&self) -> bool {
        self.done || self.running_wf()
    }

    closed spec fn running_wf(&self) -> bool {
        &&& self.core_wf()
        &&& self.tracks_since(self.since())
    }

    closed spec fn core_wf(&self) -> bool {
        let defs = self.definitions@;
        &&& self.start_time <= self.cursor <= self.end_time
        &&& self.index <= defs.len()
        &&& self.phases@.len() == self.index
        &&& names_match(self.phases@, defs)
        &&& phases_ordered(self.phases@, self.start_time, self.end_time)
        &&& forall|i: int| 0 <= i < self.phases@.len() ==> phase_reach(#[trigger] self.phases@[i]) <= self.cursor
        &&& self.stage == AssemblyStage::SeekEnd ==> {
            &&& self.index < defs.len()
            &&& self.cursor <= self.current_start <= self.end_time
        }
        &&& self.search matches Some(s) ==> {
            &&& self.index < defs.len()
            &&& s.wf()
            &&& !s.is_done()
            &&& s.window_end() == self.end_time
            &&& s.window_start() == if self.stage == AssemblyStage::SeekStart {
                self.cursor
            } else {
                self.current_start
            }
            &&& Some(s.marker()) == if self.stage == AssemblyStage::SeekStart {
                defs[self.index as int].start_marker
            } else {
                defs[self.index as int].end_marker
            }
        }
    }

    /// How far the assembly has yet to go; every step lowers it.
    closed spec fn remaining(&self) -> int {
        let rank: int = match (self.stage, self.search) {
            (AssemblyStage::SeekStart, None) => 3,
            (AssemblyStage::SeekStart, Some(_)) => 2,
            (AssemblyStage::SeekEnd, None) => 1,
            (AssemblyStage::SeekEnd, Some(_)) => 0,
        };
        4 * (self.definitions@.len() - self.index) + rank
    }

    /// A step's reply is what `fight_model` gives for the results handed back: a
    /// fetch of the page the current search needs, or the backfilled phases (the
    /// same whatever results would follow), or the source's error.
    pub open spec fn answers(&self, step: AssemblyStep) -> bool {
        let defs = self.definitions();
        match step {
            AssemblyStep::Fetch(v, f) => {
                &&& !self.is_done()
                &&& self.awaiting()
                &&& fight_model(defs, self.start_time(), self.end_time(), self.delivered())
                    == AssemblyOutcome::NeedsPage(v, f)
                &&& f.start < f.end
                &&& f.end == self.end_time()
            },
            AssemblyStep::Finished(res) => {
                &&& self.is_done()
                &&& forall|rs: Seq<Result<ReportEventsList, ApiError>>| #[trigger]
                    fight_model(defs, self.start_time(), self.end_time(), self.delivered() + rs)
                        == AssemblyOutcome::Done(outcome_of(res))
                &&& res matches Err(e) ==> e is ApiError
                &&& res matches Ok(a) ==> {
                    &&& a.wf(defs)
                    &&& a.start_time == self.start_time()
                    &&& a.end_time == self.end_time()
                    &&& a.fight_name == self.fight_name()
                    &&& a.report_code == self.report_code()
                }
            },
        }
    }

    /// The assembler keeps its fight and what it was handed.
    pub open spec fn same_fight(&self, other: &PhaseAssembler) -> bool {
        &&& self.definitions() == other.definitions()
        &&& self.fight_name() == other.fight_name()
        &&& self.report_code() == other.report_code()
        &&& self.start_time() == other.start_time()
        &&& self.end_time() == other.end_time()
    }
}

/// Starts the assembly of the phases of the fight `[start_time, end_time)`.
pub fn analyse_fight(
    fight_name: &String,
    report_code: &String,
    start_time: u64,
    end_time: u64,
    definitions: &Vec<PhaseDefinitionsPhase>,
) -> (r: PhaseAssembler)
    requires
        start_time <= end_time,
    ensures
        r.wf(),
        !r.is_done(),
        !r.awaiting(),
        r.definitions() == definitions@,
        r.delivered().len() == 0,
        r.fight_name() == *fight_name,
        r.report_code() == *report_code,
        r.start_time() == start_time,
        r.end_time() == end_time,
{
    let r = PhaseAssembler {
        fight_name: fight_name.clone(),
        report_code: report_code.clone(),
        start_time,
        end_time,
        definitions: Ghost(definitions@),
        delivered: Ghost(Seq::empty()),
        index: 0,
        cursor: start_time,
        stage: AssemblyStage::SeekStart,
        current_start: start_time,
        current_start_event: ReportEvent::UnparseableEvent,
        search: None,
        phases: Vec::new(),
        done: false,
    };
    proof {
        assert(r.phases@ =~= Seq::<RawPhaseData>::empty());
        lemma_tracks_init(definitions@, start_time, end_time);
    }
    r
}

impl PhaseAssembler {
    /// Ends the assembly with the backfilled phases, where every definition is
    /// resolved or the current start marker found no match.
    fn finish(&mut self) -> (r: AssemblyStep)
        requires
            old(self).core_wf(),
            !old(self).done,
            old(self).search is None,
            forall|rs: Seq<Result<ReportEventsList, ApiError>>| #[trigger]
                fight_model(
                    old(self).definitions@,
                    old(self).start_time,
                    old(self).end_time,
                    old(self).delivered@ + rs,
                ) == AssemblyOutcome::Done(Ok(backfill_all(old(self).phases@))),
        ensures
            final(self).wf(),
            final(self).done,
            final(self).search is None,
            final(self).same_fight(old(self)),
            final(self).delivered == old(self).delivered,
            final(self).answers(r),
    {
        let mut phases: Vec<RawPhaseData> = Vec::new();
        std::mem::swap(&mut phases, &mut self.phases);
        let ghost forward = phases@;
        backfill_phase_ends(&mut phases);
        proof {
            lemma_backfill_ordered(forward, phases@, self.start_time, self.end_time);
            assert forall|i: int| 0 <= i < phases@.len() implies #[trigger] phases@[i].phase_name@
                == self.definitions@[i].phase_name@ by {
                assert(phases@[i] == backfill_entry(forward, i));
            }
            assert(phases@ =~= backfill_all(forward));
        }
        self.done = true;
        let analysis = FightAnalysis {
            fight_name: self.fight_name.clone(),
            report_code: self.report_code.clone(),
            start_time: self.start_time,
            end_time: self.end_time,
            phases,
        };
        AssemblyStep::Finished(Ok(analysis))
    }

    /// Records the phase being resolved, ending at the event its end search found
    /// if any, and moves on to the next definition.
    fn close_phase(&mut self, definitions: &Vec<PhaseDefinitionsPhase>, end_event: Option<ReportEvent>)
        requires
            old(self).core_wf(),
            !old(self).done,
            old(self).search is None,
            old(self).stage == AssemblyStage::SeekEnd,
            definitions@ == old(self).definitions@,
            end_event matches Some(ev) ==> in_window(ev, old(self).current_start, old(self).end_time),
        ensures
            final(self).search is None,
            final(self).stage == AssemblyStage::SeekStart,
            final(self).index == old(self).index + 1,
            final(self).done == old(self).done,
            final(self).same_fight(old(self)),
            final(self).delivered == old(self).delivered,
            final(self).phases@ == old(self).phases@.push(
                phase_record(
                    old(self).definitions@[old(self).index as int].phase_name,
                    old(self).current_start,
                    old(self).current_start_event,
                    end_event,
                ),
            ),
            final(self).cursor == phase_reach(final(self).phases@.last()),
            final(self).current_start == old(self).current_start,
            final(self).current_start_event == old(self).current_start_event,
            final(self).core_wf(),
            final(self).start_time <= final(self).cursor <= final(self).end_time,
            final(self).phases@.len() == final(self).index,
            names_match(final(self).phases@, final(self).definitions@),
            phases_ordered(final(self).phases@, final(self).start_time, final(self).end_time),
            forall|i: int|
                0 <= i < final(self).phases@.len() ==> phase_reach(#[trigger] final(self).phases@[i])
                    <= final(self).cursor,
    {
        assert(self.index < definitions.len());
        let name = definitions[self.index].phase_name.clone();
        let start = self.current_start;
        let start_event = self.current_start_event.duplicate();
        let end = match &end_event {
            Some(ev) => ev.get_timestamp(),
            None => None,
        };
        let reach = match end {
            Some(e) => e,
            None => start,
        };
        let phase = RawPhaseData {
            phase_name: name,
            phase_start: start,
            phase_start_event: start_event,
            phase_end: end,
            phase_end_event: end_event,
        };
        let ghost before = self.phases@;
        self.phases.push(phase);
        self.cursor = reach;
        self.index = self.index + 1;
        self.stage = AssemblyStage::SeekStart;
        proof {
            let ps = self.phases@;
            assert(ps.last() == phase);
            assert forall|i: int| 0 <= i < ps.len() implies #[trigger] ps[i].phase_name@
                == self.definitions@[i].phase_name@ by {
                if i < before.len() {
                    assert(ps[i] == before[i]);
                }
            }
            assert forall|i: int| 0 <= i < ps.len() implies phase_within(
                #[trigger] ps[i],
                self.start_time,
                self.end_time,
            ) by {
                if i < before.len() {
                    assert(ps[i] == before[i]);
                }
            }
            assert forall|i: int| 0 <= i < ps.len() - 1 implies phase_reach(#[trigger] ps[i])
                <= ps[i + 1].phase_start by {
                assert(ps[i] == before[i]);
                if i + 1 < before.len() {
                    assert(ps[i + 1] == before[i + 1]);
                }
            }
            assert forall|i: int| 0 <= i < ps.len() implies phase_reach(#[trigger] ps[i])
                <= self.cursor by {
                if i < before.len() {
                    assert(ps[i] == before[i]);
                }
            }
        }
    }

    /// Takes in the answer of the start search, which read `since`. A start
    /// without match ends the assembly; a match starts the phase at its timestamp.
    fn take_start_answer(
        &mut self,
        answer: Option<ReportEvent>,
        Ghost(since): Ghost<Seq<Result<ReportEventsList, ApiError>>>,
        Ghost(m): Ghost<PhaseMarker>,
    ) -> (r: Option<AssemblyStep>)
        requires
            old(self).core_wf(),
            old(self).tracks_since(since),
            old(self).search is None,
            !old(self).done,
            old(self).stage == AssemblyStage::SeekStart,
            old(self).index < old(self).definitions@.len(),
            old(self).definitions@[old(self).index as int].start_marker == Some(m),
            forall|rs: Seq<Result<ReportEventsList, ApiError>>| #[trigger]
                search_spec(m, old(self).cursor, old(self).end_time, since + rs)
                    == SearchOutcome::Found(answer, rs),
            answer matches Some(ev) ==> in_window(ev, old(self).cursor, old(self).end_time),
        ensures
            final(self).search is None,
            final(self).same_fight(old(self)),
            final(self).delivered == old(self).delivered,
            match r {
                Some(step) => final(self).wf() && final(self).answers(step),
                None => !final(self).done && final(self).running_wf() && final(self).remaining()
                    < old(self).remaining() - 1,
            },
    {
        match answer {
            None => {
                proof {
                    lemma_start_unmatched(
                        self.definitions@,
                        self.start_time,
                        self.end_time,
                        self.delivered@,
                        self.index as nat,
                        self.cursor,
                        self.current_start,
                        self.current_start_event,
                        self.phases@,
                        since,
                        m,
                    );
                }
                Some(self.finish())
            },
            Some(ev) => {
                let ts = ev.get_timestamp();
                match ts {
                    None => {
                        proof {
                            assert(false);
                        }
                        self.done = true;
                        Some(AssemblyStep::Finished(Err(AnalysisError::InvalidEventMatchError)))
                    },
                    Some(t) => {
                        proof {
                            lemma_start_found(
                                self.definitions@,
                                self.start_time,
                                self.end_time,
                                self.delivered@,
                                self.index as nat,
                                self.cursor,
                                self.current_start,
                                self.current_start_event,
                                self.phases@,
                                since,
                                m,
                                ev,
                                t,
                            );
                        }
                        self.current_start = t;
                        self.current_start_event = ev;
                        self.stage = AssemblyStage::SeekEnd;
                        None
                    },
                }
            },
        }
    }

    /// Takes in the answer of the end search, which read `since`, and closes
    /// the phase.
    fn take_end_answer(
        &mut self,
        definitions: &Vec<PhaseDefinitionsPhase>,
        answer: Option<ReportEvent>,
        Ghost(since): Ghost<Seq<Result<ReportEventsList, ApiError>>>,
        Ghost(m): Ghost<PhaseMarker>,
    )
        requires
            old(self).core_wf(),
            old(self).tracks_since(since),
            old(self).search is None,
            !old(self).done,
            old(self).stage == AssemblyStage::SeekEnd,
            definitions@ == old(self).definitions@,
            old(self).definitions@[old(self).index as int].end_marker == Some(m),
            forall|rs: Seq<Result<ReportEventsList, ApiError>>| #[trigger]
                search_spec(m, old(self).current_start, old(self).end_time, since + rs)
                    == SearchOutcome::Found(answer, rs),
            answer matches Some(ev) ==> in_window(ev, old(self).current_start, old(self).end_time),
        ensures
            final(self).search is None,
            final(self).same_fight(old(self)),
            final(self).delivered == old(self).delivered,
            !final(self).done,
            final(self).running_wf(),
            final(self).remaining() < old(self).remaining() - 1,
    {
        proof {
            lemma_end_found(
                self.definitions@,
                self.start_time,
                self.end_time,
                self.delivered@,
                self.index as nat,
                self.cursor,
                self.current_start,
                self.current_start_event,
                self.phases@,
                since,
                m,
                answer,
            );
        }
        self.close_phase(definitions, answer);
    }

    /// Goes on after the current search, taken out as `search`, replied.
    fn continue_search(
        &mut self,
        definitions: &Vec<PhaseDefinitionsPhase>,
        search: MarkerSearch,
        reply: SearchStep,
    ) -> (r: Option<AssemblyStep>)
        requires
            old(self).core_wf(),
            old(self).tracks_since(search.delivered()),
            old(self).search is None,
            !old(self).done,
            definitions@ == old(self).definitions@,
            old(self).index < old(self).definitions@.len(),
            search.wf(),
            search.replied(reply),
            search.window_end() == old(self).end_time,
            old(self).stage == AssemblyStage::SeekStart ==> {
                &&& search.window_start() == old(self).cursor
                &&& Some(search.marker()) == old(self).definitions@[old(self).index as int].start_marker
            },
            old(self).stage == AssemblyStage::SeekEnd ==> {
                &&& search.window_start() == old(self).current_start
                &&& Some(search.marker()) == old(self).definitions@[old(self).index as int].end_marker
            },
        ensures
            final(self).same_fight(old(self)),
            final(self).delivered == old(self).delivered,
            match r {
                Some(step) => final(self).wf() && final(self).answers(step),
                None => {
                    &&& !final(self).done
                    &&& final(self).running_wf()
                    &&& !final(self).awaiting()
                    &&& final(self).remaining() < old(self).remaining() - 1
                },
            },
    {
        let ghost seek_end = self.stage == AssemblyStage::SeekEnd;
        let ghost m = search.marker();
        let ghost from = search.window_start();
        let ghost since = search.delivered();
        match reply {
            SearchStep::Fetch(view, filters) => {
                proof {
                    lemma_search_needs_page(
                        self.definitions@,
                        self.start_time,
                        self.end_time,
                        self.delivered@,
                        self.index as nat,
                        seek_end,
                        self.cursor,
                        self.current_start,
                        self.current_start_event,
                        self.phases@,
                        since,
                        m,
                        from,
                        filters.start,
                    );
                }
                self.search = Some(search);
                Some(AssemblyStep::Fetch(view, filters))
            },
            SearchStep::Failed(e) => {
                proof {
                    lemma_search_failed(
                        self.definitions@,
                        self.start_time,
                        self.end_time,
                        self.delivered@,
                        self.index as nat,
                        seek_end,
                        self.cursor,
                        self.current_start,
                        self.current_start_event,
                        self.phases@,
                        since,
                        m,
                        from,
                        e,
                    );
                }
                self.done = true;
                Some(AssemblyStep::Finished(Err(AnalysisError::ApiError(e))))
            },
            SearchStep::Found(found) => {
                match self.stage {
                    AssemblyStage::SeekStart => self.take_start_answer(found, Ghost(since), Ghost(m)),
                    AssemblyStage::SeekEnd => {
                        self.take_end_answer(definitions, found, Ghost(since), Ghost(m));
                        None
                    },
                }
            },
        }
    }

    /// With no search under way: starts the next search, or resolves a bound that
    /// has no marker, or ends the assembly once every definition is resolved.
    fn start_next(&mut self, definitions: &Vec<PhaseDefinitionsPhase>) -> (r: Option<AssemblyStep>)
        requires
            old(self).running_wf(),
            !old(self).done,
            old(self).search is None,
            definitions@ == old(self).definitions@,
        ensures
            final(self).same_fight(old(self)),
            final(self).delivered == old(self).delivered,
            match r {
                Some(step) => final(self).wf() && final(self).answers(step),
                None => {
                    &&& !final(self).done
                    &&& final(self).running_wf()
                    &&& !final(self).awaiting()
                    &&& final(self).remaining() < old(self).remaining()
                },
            },
    {
        proof {
            assert(self.since() =~= Seq::empty());
        }
        if self.index >= definitions.len() {
            proof {
                lemma_all_resolved(
                    self.definitions@,
                    self.start_time,
                    self.end_time,
                    self.delivered@,
                    self.index as nat,
                    self.stage == AssemblyStage::SeekEnd,
                    self.cursor,
                    self.current_start,
                    self.current_start_event,
                    self.phases@,
                );
            }
            return Some(self.finish());
        }
        match self.stage {
            AssemblyStage::SeekStart => match definitions[self.index].start_marker {
                Some(marker) => {
                    let s = marker.get_matching_event(&self.report_code, self.cursor, self.end_time);
                    proof {
                        assert(s.delivered() =~= Seq::empty());
                    }
                    self.search = Some(s);
                },
                None => {
                    proof {
                        lemma_no_start(
                            self.definitions@,
                            self.start_time,
                            self.end_time,
                            self.delivered@,
                            self.index as nat,
                            self.cursor,
                            self.current_start,
                            self.current_start_event,
                            self.phases@,
                        );
                    }
                    self.current_start = self.cursor;
                    self.current_start_event = ReportEvent::UnparseableEvent;
                    self.stage = AssemblyStage::SeekEnd;
                },
            },
            AssemblyStage::SeekEnd => match definitions[self.index].end_marker {
                Some(marker) => {
                    let s = marker.get_matching_event(
                        &self.report_code,
                        self.current_start,
                        self.end_time,
                    );
                    proof {
                        assert(s.delivered() =~= Seq::empty());
                    }
                    self.search = Some(s);
                },
                None => {
                    proof {
                        lemma_no_end(
                            self.definitions@,
                            self.start_time,
                            self.end_time,
                            self.delivered@,
                            self.index as nat,
                            self.cursor,
                            self.current_start,
                            self.current_start_event,
                            self.phases@,
                        );
                    }
                    self.close_phase(definitions, None);
                },
            },
        }
        None
    }
}

impl PhaseAssembler {
    /// Goes on with the assembly until a page has to be fetched or the fight's
    /// analysis is done.
    pub fn step(&mut self, definitions: &Vec<PhaseDefinitionsPhase>) -> (r: AssemblyStep)
        requires
            old(self).wf(),
            !old(self).is_done(),
            !old(self).awaiting(),
            definitions@ == old(self).definitions(),
        ensures
            final(self).wf(),
            final(self).same_fight(old(self)),
            final(self).delivered() == old(self).delivered(),
            final(self).answers(r),
    {
        loop
            invariant
                self.running_wf(),
                !self.done,
                !self.awaiting(),
                definitions@ == self.definitions@,
                self.same_fight(old(self)),
                self.delivered == old(self).delivered,
            decreases self.remaining(),
        {
            let taken = self.search.take();
            match taken {
                Some(mut search) => {
                    let reply = search.step();
                    if let Some(r) = self.continue_search(definitions, search, reply) {
                        return r;
                    }
                },
                None => {
                    if let Some(r) = self.start_next(definitions) {
                        return r;
                    }
                },
            }
        }
    }

    /// Hands back the outcome of the fetch asked for, and goes on with the assembly.
    pub fn deliver(
        &mut self,
        definitions: &Vec<PhaseDefinitionsPhase>,
        page: Result<ReportEventsList, ApiError>,
    ) -> (r: AssemblyStep)
        requires
            old(self).wf(),
            !old(self).is_done(),
            old(self).awaiting(),
            definitions@ == old(self).definitions(),
        ensures
            final(self).wf(),
            final(self).same_fight(old(self)),
            final(self).delivered() == old(self).delivered().push(page),
            final(self).answers(r),
    {
        let taken = self.search.take();
        match taken {
            Some(mut search) => {
                let ghost since = search.delivered();
                let reply = search.deliver(page);
                proof {
                    lemma_tracks_deliver(
                        self.definitions@,
                        self.start_time,
                        self.end_time,
                        self.delivered@,
                        self.index as nat,
                        self.stage == AssemblyStage::SeekEnd,
                        self.cursor,
                        self.current_start,
                        self.current_start_event,
                        self.phases@,
                        since,
                        page,
                    );
                    self.delivered@ = self.delivered@.push(page);
                }
                match self.continue_search(definitions, search, reply) {
                    Some(r) => r,
                    None => self.step(definitions),
                }
            },
            None => {
                proof {
                    assert(false);
                }
                self.step(definitions)
            },
        }
    }
}

} // verus!
