//! The analysis of every fight of a report that carries one encounter name.
//!
//! Like the phase assembler it does no I/O: it says which page to fetch, and its
//! caller hands each outcome back.
use vstd::prelude::*;

use crate::assembler::{
    analyse_fight, fight_model, AssemblyOutcome, AssemblyStep, FightAnalysis, PhaseAssembler,
    ReportAnalysis,
};
use crate::errors::{AnalysisError, ApiError};
use crate::fights::{Fight, ReportFightsList};
use crate::phase_definition::{PhaseDefinitionsCollection, PhaseDefinitionsPhase};
use crate::query::{EventFilters, EventsView, ReportEventsList};

verus! {

/// The fight carries this name.
pub open spec fn fight_named(f: Fight, name: Seq<char>) -> bool {
    f.name matches Some(n) && n@ == name
}

/// The fights carrying this name, in report order.
pub open spec fn fights_named(fights: Seq<Fight>, name: Seq<char>) -> Seq<Fight>
    decreases fights.len(),
{
    if fights.len() == 0 {
        Seq::empty()
    } else {
        let prev = fights_named(fights.drop_last(), name);
        if fight_named(fights.last(), name) {
            prev.push(fights.last())
        } else {
            prev
        }
    }
}

/// Every fight ends no earlier than it starts.
pub open spec fn times_ordered(fights: Seq<Fight>) -> bool {
    forall|i: int| 0 <= i < fights.len() ==> (#[trigger] fights[i]).start_time <= fights[i].end_time
}

/// What one step of a report analysis gives.
#[derive(Debug)]
pub enum ReportStep {
    /// Fetch this page, then hand the outcome to `deliver`.
    Fetch(EventsView, EventFilters),
    /// The analysis is over.
    Finished(Result<ReportAnalysis, AnalysisError>),
}

/// The analysis of the fights of a report, one fight after another.
pub struct ReportAssembler {
    report_code: String,
    fight_name: String,
    report_start: u64,
    report_end: u64,
    windows: Vec<(u64, u64)>,
    definitions: Ghost<Seq<PhaseDefinitionsPhase>>,
    next: usize,
    current: Option<PhaseAssembler>,
    fights: Vec<FightAnalysis>,
    done: bool,
    delivered: Ghost<Seq<Result<ReportEventsList, ApiError>>>,
    fight_pages: Ghost<Seq<Seq<Result<ReportEventsList, ApiError>>>>,
}

/// The page results of every fight, one fight after another.
pub open spec fn concat_pages(
    ps: Seq<Seq<Result<ReportEventsList, ApiError>>>,
) -> Seq<Result<ReportEventsList, ApiError>>
    decreases ps.len(),
{
    if ps.len() == 0 {
        Seq::empty()
    } else {
        concat_pages(ps.drop_last()) + ps.last()
    }
}

/// `a` is the analysis of the fight `window` named `name`, assembled from the
/// page results `pages`: no more and no fewer, since the assembly is done after
/// the last one and not before.
pub open spec fn analysis_of(
    a: FightAnalysis,
    window: (u64, u64),
    name: String,
    defs: Seq<PhaseDefinitionsPhase>,
    pages: Seq<Result<ReportEventsList, ApiError>>,
) -> bool {
    &&& a.wf(defs)
    &&& a.start_time == window.0
    &&& a.end_time == window.1
    &&& a.fight_name == name
    &&& forall|rs: Seq<Result<ReportEventsList, ApiError>>| #[trigger]
        fight_model(defs, window.0, window.1, pages + rs) == AssemblyOutcome::Done(Ok(a.phases@))
    &&& pages.len() > 0 ==> fight_model(defs, window.0, window.1, pages.drop_last()) is NeedsPage
}

impl ReportAssembler {
    pub closed spec fn report_code(&self) -> String {
        self.report_code
    }

    pub closed spec fn fight_name(&self) -> String {
        self.fight_name
    }

    pub closed spec fn report_start(&self) -> u64 {
        self.report_start
    }

    pub closed spec fn report_end(&self) -> u64 {
        self.report_end
    }

    /// The `(start, end)` of each fight to analyse, in report order.
    pub closed spec fn windows(&self) -> Seq<(u64, u64)> {
        self.windows@
    }

    /// The phase definitions every fight is assembled with.
    pub closed spec fn definitions(&self) -> Seq<PhaseDefinitionsPhase> {
        self.definitions@
    }

    /// The results of the fetches handed back so far, in order.
    pub closed spec fn delivered(&self) -> Seq<Result<ReportEventsList, ApiError>> {
        self.delivered@
    }

    /// The results handed back for each fight done so far.
    pub closed spec fn fight_pages(&self) -> Seq<Seq<Result<ReportEventsList, ApiError>>> {
        self.fight_pages@
    }

    pub closed spec fn is_done(&self) -> bool {
        self.done
    }

    pub closed spec fn wf(&self) -> bool {
        self.done || self.running_wf()
    }

    closed spec fn running_wf(&self) -> bool {
        &&& self.progress_wf(self.current is Some)
        &&& match self.current {
            Some(a) => {
                &&& a.wf()
                &&& !a.is_done()
                &&& a.definitions() == self.definitions@
                &&& a.start_time() == self.windows@[self.next - 1].0
                &&& a.end_time() == self.windows@[self.next - 1].1
                &&& a.fight_name() == self.fight_name
                &&& a.report_code() == self.report_code
                &&& self.delivered@ == concat_pages(self.fight_pages@) + a.delivered()
                &&& a.delivered().len() > 0 ==> fight_model(
                    self.definitions@,
                    a.start_time(),
                    a.end_time(),
                    a.delivered().drop_last(),
                ) is NeedsPage
                &&& a.awaiting() ==> fight_model(
                    self.definitions@,
                    a.start_time(),
                    a.end_time(),
                    a.delivered(),
                ) is NeedsPage
            },
            None => self.delivered@ == concat_pages(self.fight_pages@),
        }
    }

    /// The fights before `next` are done, but the last one where `in_progress`.
    closed spec fn progress_wf(&self, in_progress: bool) -> bool {
        &&& self.next <= self.windows@.len()
        &&& in_progress ==> self.next >= 1
        &&& forall|k: int|
            0 <= k < self.windows@.len() ==> (#[trigger] self.windows@[k]).0 <= self.windows@[k].1
        &&& self.fights@.len() == if in_progress {
            self.next - 1
        } else {
            self.next as int
        }
        &&& self.fight_pages@.len() == self.fights@.len()
        &&& forall|k: int|
            0 <= k < self.fights@.len() ==> analysis_of(
                #[trigger] self.fights@[k],
                self.windows@[k],
                self.fight_name,
                self.definitions@,
                self.fight_pages@[k],
            )
    }

    /// A fetch has been asked for and not yet handed back.
    pub closed spec fn awaiting(&self) -> bool {
        self.current matches Some(a) && a.awaiting()
    }

    closed spec fn remaining(&self) -> int {
        2 * (self.windows@.len() - self.next) + if self.current is Some {
            1int
        } else {
            0
        }
    }

    /// The analysis keeps its report and its fights.
    pub open spec fn same_report(&self, other: &ReportAssembler) -> bool {
        &&& self.report_code() == other.report_code()
        &&& self.fight_name() == other.fight_name()
        &&& self.report_start() == other.report_start()
        &&& self.report_end() == other.report_end()
        &&& self.windows() == other.windows()
        &&& self.definitions() == other.definitions()
    }

    /// What a step answers: a fetch the current fight's assembly asks for, or the
    /// analysis of every fight in order, each assembled from its own share of the
    /// page results, which together are all the results handed back.
    pub open spec fn answers(&self, step: ReportStep) -> bool {
        match step {
            ReportStep::Fetch(_, f) => {
                &&& !self.is_done()
                &&& self.awaiting()
                &&& f.start < f.end
            },
            ReportStep::Finished(res) => {
                &&& self.is_done()
                &&& res matches Err(e) ==> e is ApiError
                &&& res matches Ok(r) ==> {
                    &&& r.report_code == self.report_code()
                    &&& r.report_start == self.report_start()
                    &&& r.report_end == self.report_end()
                    &&& r.fights@.len() == self.windows().len()
                    &&& self.fight_pages().len() == self.windows().len()
                    &&& self.delivered() == concat_pages(self.fight_pages())
                    &&& forall|k: int|
                        0 <= k < r.fights@.len() ==> analysis_of(
                            #[trigger] r.fights@[k],
                            self.windows()[k],
                            self.fight_name(),
                            self.definitions(),
                            self.fight_pages()[k],
                        )
                }
            },
        }
    }

    /// The `(start, end)` of each fight to analyse, in report order.
    pub fn fight_windows(&self) -> (r: &Vec<(u64, u64)>)
        ensures
            r@ == self.windows(),
    {
        &self.windows
    }
}

fn named_windows(fights: &Vec<Fight>, name: &String) -> (r: (Vec<(u64, u64)>, bool))
    ensures
        r.0@.len() == fights_named(fights@, name@).len(),
        forall|k: int|
            0 <= k < r.0@.len() ==> #[trigger] r.0@[k] == (
                fights_named(fights@, name@)[k].start_time,
                fights_named(fights@, name@)[k].end_time,
            ),
        r.1 == times_ordered(fights_named(fights@, name@)),
{
    let mut windows: Vec<(u64, u64)> = Vec::new();
    let mut ordered = true;
    let mut i: usize = 0;
    while i < fights.len()
        invariant
            0 <= i <= fights@.len(),
            windows@.len() == fights_named(fights@.take(i as int), name@).len(),
            forall|k: int|
                0 <= k < windows@.len() ==> #[trigger] windows@[k] == (
                    fights_named(fights@.take(i as int), name@)[k].start_time,
                    fights_named(fights@.take(i as int), name@)[k].end_time,
                ),
            ordered == times_ordered(fights_named(fights@.take(i as int), name@)),
        decreases fights@.len() - i,
    {
        let ghost before = fights_named(fights@.take(i as int), name@);
        proof {
            assert(fights@.take(i as int + 1).drop_last() =~= fights@.take(i as int));
            assert(fights@.take(i as int + 1).last() == fights@[i as int]);
        }
        let f = &fights[i];
        let named = match &f.name {
            Some(n) => *n == *name,
            None => false,
        };
        if named {
            windows.push((f.start_time, f.end_time));
            if f.start_time > f.end_time {
                ordered = false;
            }
            proof {
                let after = fights_named(fights@.take(i as int + 1), name@);
                assert(after == before.push(fights@[i as int]));
                assert forall|k: int| 0 <= k < windows@.len() implies #[trigger] windows@[k] == (
                    after[k].start_time,
                    after[k].end_time,
                ) by {
                    if k < before.len() {
                        assert(after[k] == before[k]);
                    }
                }
                if times_ordered(before) && f.start_time <= f.end_time {
                    assert forall|k: int| 0 <= k < after.len() implies (
                    #[trigger] after[k]).start_time <= after[k].end_time by {
                        if k < before.len() {
                            assert(after[k] == before[k]);
                        }
                    }
                }
                if !times_ordered(before) {
                    let k = choose|k: int|
                        0 <= k < before.len() && !((#[trigger] before[k]).start_time
                            <= before[k].end_time);
                    assert(after[k] == before[k]);
                }
                if f.start_time > f.end_time {
                    assert(after[after.len() - 1] == fights@[i as int]);
                }
            }
        }
        i = i + 1;
    }
    proof {
        assert(fights@.take(fights@.len() as int) =~= fights@);
    }
    (windows, ordered)
}

/// Prepares the analysis of every fight of the report named `name`. Fails with
/// `NoMatchingFights` when no fight carries the name; otherwise with
/// `UnknownFightError` when no phases are defined for the name; otherwise with
/// `UnspecifiedFightTime` when the report's start or end is missing, or when such
/// a fight ends before it starts, since its timings are then unusable too.
pub fn analyse_fights_by_name(
    report_code: &String,
    name: &String,
    report: &ReportFightsList,
    definitions: &PhaseDefinitionsCollection,
) -> (r: Result<ReportAssembler, AnalysisError>)
    requires
        definitions.wf(),
    ensures
        fights_named(report.fights@, name@).len() == 0 ==> r == Err::<ReportAssembler, AnalysisError>(
            AnalysisError::NoMatchingFights,
        ),
        fights_named(report.fights@, name@).len() > 0 && !definitions.has_name(name@) ==> r
            == Err::<ReportAssembler, AnalysisError>(AnalysisError::UnknownFightError(*name)),
        fights_named(report.fights@, name@).len() > 0 && definitions.has_name(name@) && (
        report.start is None || report.end is None || !times_ordered(
            fights_named(report.fights@, name@),
        )) ==> r == Err::<ReportAssembler, AnalysisError>(AnalysisError::UnspecifiedFightTime),
        fights_named(report.fights@, name@).len() > 0 && definitions.has_name(name@)
            && report.start is Some && report.end is Some && times_ordered(
            fights_named(report.fights@, name@),
        ) ==> r is Ok,
        r matches Ok(a) ==> {
            &&& a.wf()
            &&& !a.is_done()
            &&& !a.awaiting()
            &&& a.report_code() == *report_code
            &&& a.fight_name() == *name
            &&& Some(a.report_start()) == report.start
            &&& Some(a.report_end()) == report.end
            &&& a.windows().len() == fights_named(report.fights@, name@).len()
            &&& forall|k: int|
                0 <= k < a.windows().len() ==> #[trigger] a.windows()[k] == (
                    fights_named(report.fights@, name@)[k].start_time,
                    fights_named(report.fights@, name@)[k].end_time,
                )
            &&& definitions.get_spec(name@) == Some(a.definitions())
            &&& a.delivered().len() == 0
        },
{
    let (windows, ordered) = named_windows(&report.fights, name);
    if windows.len() == 0 {
        return Err(AnalysisError::NoMatchingFights);
    }
    let defs = definitions.get(name);
    let ghost phases: Seq<PhaseDefinitionsPhase> = match defs {
        Some(v) => v@,
        None => Seq::empty(),
    };
    if defs.is_none() {
        return Err(AnalysisError::UnknownFightError(name.clone()));
    }
    let (report_start, report_end) = match (report.start, report.end) {
        (Some(s), Some(e)) => (s, e),
        _ => {
            return Err(AnalysisError::UnspecifiedFightTime);
        },
    };
    if !ordered {
        return Err(AnalysisError::UnspecifiedFightTime);
    }
    Ok(
        ReportAssembler {
            report_code: report_code.clone(),
            fight_name: name.clone(),
            report_start,
            report_end,
            windows,
            definitions: Ghost(phases),
            next: 0,
            current: None,
            fights: Vec::new(),
            done: false,
            delivered: Ghost(Seq::empty()),
            fight_pages: Ghost(Seq::empty()),
        },
    )
}

impl ReportAssembler {
    /// Goes on with the analysis until a page has to be fetched or every fight is
    /// done. A failed fight ends the whole analysis with its error.
    pub fn step(&mut self, definitions: &Vec<PhaseDefinitionsPhase>) -> (r: ReportStep)
        requires
            old(self).wf(),
            !old(self).is_done(),
            !old(self).awaiting(),
            definitions@ == old(self).definitions(),
        ensures
            final(self).wf(),
            final(self).same_report(old(self)),
            final(self).delivered() == old(self).delivered(),
            final(self).answers(r),
    {
        loop
            invariant
                self.running_wf(),
                !self.done,
                !self.awaiting(),
                definitions@ == self.definitions@,
                self.same_report(old(self)),
                self.delivered == old(self).delivered,
            decreases self.remaining(),
        {
            let taken = self.current.take();
            match taken {
                Some(mut fight) => {
                    let r = fight.step(definitions);
                    if let Some(out) = self.take_outcome(fight, r) {
                        return out;
                    }
                },
                None => {
                    if self.next >= self.windows.len() {
                        return self.finish();
                    }
                    let (start, end) = self.windows[self.next];
                    let fight = analyse_fight(
                        &self.fight_name,
                        &self.report_code,
                        start,
                        end,
                        definitions,
                    );
                    proof {
                        assert(self.delivered@ =~= concat_pages(self.fight_pages@) + fight.delivered());
                    }
                    self.current = Some(fight);
                    self.next = self.next + 1;
                },
            }
        }
    }

    /// Hands back the outcome of the fetch asked for, and goes on with the analysis.
    pub fn deliver(
        &mut self,
        definitions: &Vec<PhaseDefinitionsPhase>,
        page: Result<ReportEventsList, ApiError>,
    ) -> (r: ReportStep)
        requires
            old(self).wf(),
            !old(self).is_done(),
            old(self).awaiting(),
            definitions@ == old(self).definitions(),
        ensures
            final(self).wf(),
            final(self).same_report(old(self)),
            final(self).delivered() == old(self).delivered().push(page),
            final(self).answers(r),
    {
        let taken = self.current.take();
        match taken {
            Some(mut fight) => {
                let ghost d = fight.delivered();
                let r = fight.deliver(definitions, page);
                proof {
                    self.delivered@ = self.delivered@.push(page);
                    assert(self.delivered@ =~= concat_pages(self.fight_pages@) + fight.delivered());
                    assert(fight.delivered().drop_last() =~= d);
                }
                match self.take_outcome(fight, r) {
                    Some(out) => out,
                    None => self.step(definitions),
                }
            },
            None => {
                proof {
                    assert(false);
                }
                self.step(definitions)
            },
        }
    }

    fn finish(&mut self) -> (r: ReportStep)
        requires
            old(self).running_wf(),
            !old(self).done,
            old(self).current is None,
            old(self).next == old(self).windows@.len(),
        ensures
            final(self).done,
            final(self).same_report(old(self)),
            final(self).delivered == old(self).delivered,
            final(self).fight_pages == old(self).fight_pages,
            final(self).answers(r),
    {
        let mut fights: Vec<FightAnalysis> = Vec::new();
        std::mem::swap(&mut fights, &mut self.fights);
        self.done = true;
        ReportStep::Finished(
            Ok(
                ReportAnalysis {
                    report_code: self.report_code.clone(),
                    report_start: self.report_start,
                    report_end: self.report_end,
                    fights,
                },
            ),
        )
    }

    /// Takes in what a step of the current fight gave. Gives the report's step
    /// where it ends here or a page is wanted, and `None` where it goes on.
    fn take_outcome(&mut self, fight: PhaseAssembler, step: AssemblyStep) -> (r: Option<ReportStep>)
        requires
            old(self).progress_wf(true),
            !old(self).done,
            old(self).current is None,
            fight.wf(),
            fight.answers(step),
            fight.definitions() == old(self).definitions@,
            fight.start_time() == old(self).windows@[old(self).next - 1].0,
            fight.end_time() == old(self).windows@[old(self).next - 1].1,
            fight.fight_name() == old(self).fight_name,
            fight.report_code() == old(self).report_code,
            old(self).delivered@ == concat_pages(old(self).fight_pages@) + fight.delivered(),
            fight.delivered().len() > 0 ==> fight_model(
                old(self).definitions@,
                fight.start_time(),
                fight.end_time(),
                fight.delivered().drop_last(),
            ) is NeedsPage,
        ensures
            final(self).delivered == old(self).delivered,
            final(self).same_report(old(self)),
            match r {
                Some(out) => final(self).wf() && final(self).answers(out),
                None => {
                    &&& final(self).running_wf()
                    &&& !final(self).done
                    &&& final(self).current is None
                    &&& final(self).next == old(self).next
                },
            },
    {
        match step {
            AssemblyStep::Fetch(view, filters) => {
                self.current = Some(fight);
                Some(ReportStep::Fetch(view, filters))
            },
            AssemblyStep::Finished(Err(e)) => {
                self.done = true;
                Some(ReportStep::Finished(Err(e)))
            },
            AssemblyStep::Finished(Ok(analysis)) => {
                let ghost before = self.fight_pages@;
                let ghost done_fights = self.fights@;
                self.fights.push(analysis);
                proof {
                    self.fight_pages@ = self.fight_pages@.push(fight.delivered());
                    assert(self.fight_pages@.drop_last() =~= before);
                    assert forall|k: int| 0 <= k < self.fights@.len() implies analysis_of(
                        #[trigger] self.fights@[k],
                        self.windows@[k],
                        self.fight_name,
                        self.definitions@,
                        self.fight_pages@[k],
                    ) by {
                        if k < done_fights.len() {
                            assert(self.fights@[k] == done_fights[k]);
                            assert(self.fight_pages@[k] == before[k]);
                        }
                    }
                }
                None
            },
        }
    }
}

} // verus!
