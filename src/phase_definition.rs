//! Phase definitions, the markers that bound a phase, and the bounded search that
//! finds the event a marker selects.
use vstd::prelude::*;

use crate::errors::ApiError;
use crate::events::ReportEvent;
use crate::query::{blank_filters, rewindowed, EventFilters, EventsView, Hostility, ReportEventsList};
use crate::stream::{get_event_iterator, in_window, window_events, EventsStream, StreamPoll};
use crate::types::actor_id;

verus! {

/// Selects the start of a cast of one ability.
#[derive(Debug, Clone, Copy, PartialEq, Eq, Structural)]
pub struct BeginCastMarker {
    pub ability_id: i64,
    pub instance_no: Option<i32>,
    pub hostility: Option<Hostility>,
}

/// Selects the completion of a cast of one ability.
#[derive(Debug, Clone, Copy, PartialEq, Eq, Structural)]
pub struct EndCastMarker {
    pub ability_id: i64,
    pub instance_no: Option<i32>,
    pub hostility: Option<Hostility>,
}

/// Selects the death of one actor.
#[derive(Debug, Clone, Copy, PartialEq, Eq, Structural)]
pub struct DeathMarker {
    pub target_id: i64,
    pub instance_no: Option<i32>,
    pub hostility: Option<Hostility>,
}

/// A marker that matches one kind of event by its fields.
#[derive(Debug, Clone, Copy, PartialEq, Eq, Structural)]
pub enum EventMarker {
    BeginCast(BeginCastMarker),
    EndCast(EndCastMarker),
    Death(DeathMarker),
}

/// The rule that finds the event at which a phase begins or ends.
#[derive(Debug, Clone, Copy, PartialEq, Eq, Structural)]
pub enum PhaseMarker {
    /// The first event of the window, of any kind.
    FightStartMarker,
    EventMarker(EventMarker),
}

/// One named phase of an encounter and the markers that bound it.
#[derive(Debug, Clone, PartialEq)]
pub struct PhaseDefinitionsPhase {
    pub phase_name: String,
    pub start_marker: Option<PhaseMarker>,
    pub end_marker: Option<PhaseMarker>,
}

/// The phase definitions of every known encounter, keyed by encounter name.
///
/// The entries are a `Vec` of pairs with unique names rather than a `HashMap`:
/// vstd's specification of `HashMap` proves nothing of lookups under a `String`
/// key, while a scan compared with `String`'s specified `==` is proved exact.
pub struct PhaseDefinitionsCollection {
    pub entries: Vec<(String, Vec<PhaseDefinitionsPhase>)>,
}

impl PhaseDefinitionsCollection {
    /// No two entries share a name.
    pub open spec fn wf(&self) -> bool {
        forall|i: int, j: int|
            0 <= i < j < self.entries@.len() ==> #[trigger] self.entries@[i].0@
                != #[trigger] self.entries@[j].0@
    }

    /// Some entry holds this name.
    pub open spec fn has_name(&self, name: Seq<char>) -> bool {
        exists|i: int| 0 <= i < self.entries@.len() && #[trigger] self.entries@[i].0@ == name
    }

    /// The phases held under this name.
    pub open spec fn get_spec(&self, name: Seq<char>) -> Option<Seq<PhaseDefinitionsPhase>> {
        if self.has_name(name) {
            let i = choose|i: int| 0 <= i < self.entries@.len() && #[trigger] self.entries@[i].0@ == name;
            Some(self.entries@[i].1@)
        } else {
            None
        }
    }

    /// An empty collection.
    pub fn new() -> (r: PhaseDefinitionsCollection)
        ensures
            r.wf(),
            r.entries@.len() == 0,
    {
        PhaseDefinitionsCollection { entries: Vec::new() }
    }

    fn position(&self, name: &String) -> (r: Option<usize>)
        ensures
            match r {
                Some(i) => i < self.entries@.len() && self.entries@[i as int].0@ == name@,
                None => !self.has_name(name@),
            },
    {
        let mut i: usize = 0;
        while i < self.entries.len()
            invariant
                0 <= i <= self.entries@.len(),
                forall|j: int| 0 <= j < i ==> self.entries@[j].0@ != name@,
            decreases self.entries@.len() - i,
        {
            if self.entries[i].0 == *name {
                return Some(i);
            }
            i = i + 1;
        }
        None
    }

    /// Adds the phases of an encounter, replacing any held under the same name.
    pub fn insert(&mut self, name: String, phases: Vec<PhaseDefinitionsPhase>)
        requires
            old(self).wf(),
        ensures
            final(self).wf(),
            final(self).has_name(name@),
            forall|i: int|
                0 <= i < final(self).entries@.len() && #[trigger] final(self).entries@[i].0@ == name@
                    ==> final(self).entries@[i].1 == phases,
            forall|n: Seq<char>|
                n != name@ ==> (#[trigger] final(self).has_name(n) == old(self).has_name(n)),
            forall|i: int|
                0 <= i < old(self).entries@.len() && #[trigger] old(self).entries@[i].0@ != name@
                    ==> final(self).entries@[i] == old(self).entries@[i],
    {
        match self.position(&name) {
            Some(i) => {
                let ghost key = self.entries@[i as int].0;
                self.entries.set(i, (name, phases));
                proof {
                    assert forall|n: Seq<char>| n != name@ implies #[trigger] self.has_name(n)
                        == old(self).has_name(n) by {
                        if old(self).has_name(n) {
                            let j = choose|j: int|
                                0 <= j < old(self).entries@.len() && #[trigger] old(
                                    self,
                                ).entries@[j].0@ == n;
                            assert(self.entries@[j].0@ == n);
                        }
                        if self.has_name(n) {
                            let j = choose|j: int|
                                0 <= j < self.entries@.len() && #[trigger] self.entries@[j].0@ == n;
                            assert(old(self).entries@[j].0@ == n);
                        }
                    }
                    assert(self.entries@[i as int].0@ == name@);
                }
            },
            None => {
                self.entries.push((name, phases));
                proof {
                    let last = self.entries@.len() - 1;
                    assert(self.entries@[last].0@ == name@);
                    assert forall|n: Seq<char>| n != name@ implies #[trigger] self.has_name(n)
                        == old(self).has_name(n) by {
                        if old(self).has_name(n) {
                            let j = choose|j: int|
                                0 <= j < old(self).entries@.len() && #[trigger] old(
                                    self,
                                ).entries@[j].0@ == n;
                            assert(self.entries@[j].0@ == n);
                        }
                        if self.has_name(n) {
                            let j = choose|j: int|
                                0 <= j < self.entries@.len() && #[trigger] self.entries@[j].0@ == n;
                            assert(old(self).entries@[j].0@ == n);
                        }
                    }
                }
            },
        }
    }

    /// The phases of the encounter with this name, if it is known.
    pub fn get(&self, fight_name: &String) -> (r: Option<&Vec<PhaseDefinitionsPhase>>)
        requires
            self.wf(),
        ensures
            r is None <==> !self.has_name(fight_name@),
            r matches Some(v) ==> self.get_spec(fight_name@) == Some(v@),
    {
        match self.position(fight_name) {
            Some(i) => {
                proof {
                    let j = choose|j: int|
                        0 <= j < self.entries@.len() && #[trigger] self.entries@[j].0@ == fight_name@;
                    if j != i {
                        if j < i {
                            assert(self.entries@[j].0@ != self.entries@[i as int].0@);
                        } else {
                            assert(self.entries@[i as int].0@ != self.entries@[j].0@);
                        }
                    }
                }
                Some(&self.entries[i].1)
            },
            None => None,
        }
    }
}

/// The event matches the marker by kind and by the marker's field.
pub open spec fn event_marker_accepts(m: EventMarker, ev: ReportEvent) -> bool {
    match m {
        EventMarker::BeginCast(c) => match ev {
            ReportEvent::BeginCast(d) => d.ability.guid == c.ability_id,
            _ => false,
        },
        EventMarker::EndCast(c) => match ev {
            ReportEvent::Cast(d) => d.ability.guid == c.ability_id,
            _ => false,
        },
        EventMarker::Death(c) => match ev {
            ReportEvent::Death(d) => match d.target {
                Some(t) => actor_id(t.id, t.target_data) == Some(c.target_id),
                None => false,
            },
            _ => false,
        },
    }
}

/// The event is one the marker can select: any event for the fight start.
pub open spec fn marker_accepts(m: PhaseMarker, ev: ReportEvent) -> bool {
    match m {
        PhaseMarker::FightStartMarker => true,
        PhaseMarker::EventMarker(e) => event_marker_accepts(e, ev),
    }
}

/// How many matching events the marker passes over before the one it selects.
pub open spec fn skip_count(m: PhaseMarker) -> nat {
    let n: Option<i32> = match m {
        PhaseMarker::FightStartMarker => None,
        PhaseMarker::EventMarker(EventMarker::BeginCast(c)) => c.instance_no,
        PhaseMarker::EventMarker(EventMarker::EndCast(c)) => c.instance_no,
        PhaseMarker::EventMarker(EventMarker::Death(c)) => c.instance_no,
    };
    match n {
        Some(k) => if k > 0 {
            k as nat
        } else {
            0
        },
        None => 0,
    }
}

/// The view a marker's events are searched in.
pub open spec fn marker_view(m: PhaseMarker) -> EventsView {
    match m {
        PhaseMarker::FightStartMarker => EventsView::Summary,
        PhaseMarker::EventMarker(EventMarker::BeginCast(_)) => EventsView::Casts,
        PhaseMarker::EventMarker(EventMarker::EndCast(_)) => EventsView::Casts,
        PhaseMarker::EventMarker(EventMarker::Death(_)) => EventsView::Deaths,
    }
}

/// The hostility searched for: hostile unless the marker says otherwise.
pub open spec fn hostility_or_hostile(h: Option<Hostility>) -> Hostility {
    match h {
        Some(x) => x,
        None => Hostility::Hostile,
    }
}

/// The field filters a marker's events are searched with.
pub open spec fn marker_filters(m: PhaseMarker) -> EventFilters {
    match m {
        PhaseMarker::FightStartMarker => blank_filters(0, 0),
        PhaseMarker::EventMarker(EventMarker::BeginCast(c)) => EventFilters {
            ability_id: Some(c.ability_id),
            hostility: Some(hostility_or_hostile(c.hostility)),
            ..blank_filters(0, 0)
        },
        PhaseMarker::EventMarker(EventMarker::EndCast(c)) => EventFilters {
            ability_id: Some(c.ability_id),
            hostility: Some(hostility_or_hostile(c.hostility)),
            ..blank_filters(0, 0)
        },
        PhaseMarker::EventMarker(EventMarker::Death(c)) => EventFilters {
            target_id: Some(c.target_id),
            hostility: Some(hostility_or_hostile(c.hostility)),
            ..blank_filters(0, 0)
        },
    }
}

fn hostile_unless(h: Option<Hostility>) -> (r: Hostility)
    ensures
        r == hostility_or_hostile(h),
{
    match h {
        Some(x) => x,
        None => Hostility::Hostile,
    }
}

impl EventMarker {
    /// Whether the event has the marker's kind and field value.
    pub fn compare_to_event(&self, ev: &ReportEvent) -> (r: bool)
        ensures
            r == event_marker_accepts(*self, *ev),
    {
        match self {
            EventMarker::BeginCast(marker) => match ev {
                ReportEvent::BeginCast(d) => marker.ability_id == d.ability.guid,
                _ => false,
            },
            EventMarker::EndCast(marker) => match ev {
                ReportEvent::Cast(d) => marker.ability_id == d.ability.guid,
                _ => false,
            },
            EventMarker::Death(marker) => match ev {
                ReportEvent::Death(d) => match &d.target {
                    Some(t) => match t.get_id() {
                        Some(id) => id == marker.target_id,
                        None => false,
                    },
                    None => false,
                },
                _ => false,
            },
        }
    }

    /// The view and field filters under which the marker's events are searched.
    pub fn create_event_filters(&self) -> (r: (EventsView, EventFilters))
        ensures
            r.0 == marker_view(PhaseMarker::EventMarker(*self)),
            r.1 == marker_filters(PhaseMarker::EventMarker(*self)),
    {
        let mut res = EventFilters::window(0, 0);
        let view: EventsView;
        match self {
            EventMarker::BeginCast(marker) => {
                res.ability_id = Some(marker.ability_id);
                res.hostility = Some(hostile_unless(marker.hostility));
                view = EventsView::Casts;
            },
            EventMarker::EndCast(marker) => {
                res.ability_id = Some(marker.ability_id);
                res.hostility = Some(hostile_unless(marker.hostility));
                view = EventsView::Casts;
            },
            EventMarker::Death(marker) => {
                res.target_id = Some(marker.target_id);
                res.hostility = Some(hostile_unless(marker.hostility));
                view = EventsView::Deaths;
            },
        }
        (view, res)
    }

    fn instance_count(&self) -> (r: u64)
        ensures
            r == skip_count(PhaseMarker::EventMarker(*self)),
    {
        let n = match self {
            EventMarker::BeginCast(m) => m.instance_no,
            EventMarker::EndCast(m) => m.instance_no,
            EventMarker::Death(m) => m.instance_no,
        };
        match n {
            Some(k) => if k > 0 {
                k as u64
            } else {
                0
            },
            None => 0,
        }
    }
}

impl PhaseMarker {
    /// Whether the marker can select the event.
    pub fn check_event(&self, ev: &ReportEvent) -> (r: bool)
        ensures
            r == marker_accepts(*self, *ev),
    {
        match self {
            PhaseMarker::FightStartMarker => true,
            PhaseMarker::EventMarker(marker) => marker.compare_to_event(ev),
        }
    }

    /// The view and field filters under which the marker's events are searched.
    pub fn create_event_filters(&self) -> (r: (EventsView, EventFilters))
        ensures
            r.0 == marker_view(*self),
            r.1 == marker_filters(*self),
    {
        match self {
            PhaseMarker::FightStartMarker => (EventsView::Summary, EventFilters::window(0, 0)),
            PhaseMarker::EventMarker(marker) => marker.create_event_filters(),
        }
    }

    fn instance_count(&self) -> (r: u64)
        ensures
            r == skip_count(*self),
    {
        match self {
            PhaseMarker::FightStartMarker => 0,
            PhaseMarker::EventMarker(marker) => marker.instance_count(),
        }
    }

    /// Starts the search for the event this marker selects in `[start_time, end_time)`.
    pub fn get_matching_event(&self, report_code: &String, start_time: u64, end_time: u64) -> (r:
        MarkerSearch)
        ensures
            r.wf(),
            r.marker() == *self,
            !r.is_done(),
            !r.awaiting(),
            r.window_start() == start_time,
            r.window_end() == end_time,
            r.delivered().len() == 0,
    {
        let (view, filters) = self.create_event_filters();
        let stream = get_event_iterator(view, report_code, filters.with_window(start_time, end_time));
        let skips = self.instance_count();
        let r = MarkerSearch {
            marker: *self,
            stream,
            skips_left: skips,
            done: false,
            delivered: Ghost(Seq::empty()),
        };
        proof {
            assert(r.stream.buffer() =~= Seq::<ReportEvent>::empty());
            assert forall|rs: Seq<Result<ReportEventsList, ApiError>>| #[trigger] search_spec(
                r.marker,
                start_time,
                end_time,
                r.delivered@ + rs,
            ) == resume(
                r.marker,
                r.skips_left as nat,
                r.stream.buffer(),
                r.stream.failure(),
                r.stream.next_fetch(),
                start_time,
                end_time,
                rs,
            ) by {
                assert(r.delivered@ + rs =~= rs);
            }
        }
        r
    }
}

/// Where a search stands once the page results `rs` are read.
pub enum SearchOutcome {
    /// A page starting here has to be fetched first.
    NeedsPage(u64),
    /// The search selected this event, or found none; the page results after
    /// the last one it read are left.
    Found(Option<ReportEvent>, Seq<Result<ReportEventsList, ApiError>>),
    /// A fetch failed with this error.
    Failed(ApiError),
}

/// The search for the match after `skips` more, from the buffered events `buf`,
/// a failure still to deliver, and the next page at `cursor`, reading the page
/// results `rs` as they are needed. Each page's events outside `[ws, we)` are
/// dropped; an empty page, a missing cursor or one at or past `we` end the search.
pub open spec fn resume(
    m: PhaseMarker,
    skips: nat,
    buf: Seq<ReportEvent>,
    failure: Option<ApiError>,
    cursor: Option<u64>,
    ws: u64,
    we: u64,
    rs: Seq<Result<ReportEventsList, ApiError>>,
) -> SearchOutcome
    decreases rs.len(), buf.len(),
{
    if buf.len() > 0 {
        if marker_accepts(m, buf[0]) && skips == 0 {
            SearchOutcome::Found(Some(buf[0]), rs)
        } else {
            let next_skips: nat = if marker_accepts(m, buf[0]) {
                (skips - 1) as nat
            } else {
                skips
            };
            resume(m, next_skips, buf.drop_first(), failure, cursor, ws, we, rs)
        }
    } else if failure is Some {
        SearchOutcome::Failed(failure->0)
    } else {
        match cursor {
            None => SearchOutcome::Found(None, rs),
            Some(c) => if c >= we {
                SearchOutcome::Found(None, rs)
            } else if rs.len() == 0 {
                SearchOutcome::NeedsPage(c)
            } else {
                match rs[0] {
                    Err(e) => SearchOutcome::Failed(e),
                    Ok(p) => if p.events@.len() == 0 {
                        SearchOutcome::Found(None, rs.drop_first())
                    } else {
                        resume(
                            m,
                            skips,
                            window_events(p.events@, ws, we),
                            None,
                            p.next_page_timestamp,
                            ws,
                            we,
                            rs.drop_first(),
                        )
                    },
                }
            },
        }
    }
}

/// The search for the event marker `m` selects in `[ws, we)`, given the results
/// of the fetches it asks for, in order: pages are read from `ws` on, and matches
/// are passed over as the marker's instance number says.
pub open spec fn search_spec(
    m: PhaseMarker,
    ws: u64,
    we: u64,
    rs: Seq<Result<ReportEventsList, ApiError>>,
) -> SearchOutcome {
    resume(m, skip_count(m), Seq::empty(), None, Some(ws), ws, we, rs)
}

/// What one step of a marker search gives.
#[derive(Debug)]
pub enum SearchStep {
    /// Fetch this page, then hand the outcome to `deliver`.
    Fetch(EventsView, EventFilters),
    /// The search is over: the selected event, or `None` where the window has too few.
    Found(Option<ReportEvent>),
    /// A fetch failed; the search is over.
    Failed(ApiError),
}

/// A search for the event a marker selects, driving one stream.
pub struct MarkerSearch {
    marker: PhaseMarker,
    stream: EventsStream,
    skips_left: u64,
    done: bool,
    delivered: Ghost<Seq<Result<ReportEventsList, ApiError>>>,
}

impl MarkerSearch {
    pub closed spec fn marker(&self) -> PhaseMarker {
        self.marker
    }

    /// The results of the fetches handed back so far, in order.
    pub closed spec fn delivered(&self) -> Seq<Result<ReportEventsList, ApiError>> {
        self.delivered@
    }

    /// The search has given its answer.
    pub closed spec fn is_done(&self) -> bool {
        self.done
    }

    /// A fetch has been asked for and not yet handed back.
    pub closed spec fn awaiting(&self) -> bool {
        self.stream.in_flight()
    }

    pub closed spec fn window_start(&self) -> u64 {
        self.stream.window_start()
    }

    pub closed spec fn window_end(&self) -> u64 {
        self.stream.window_end()
    }

    /// A failure handed back and not yet reported.
    pub closed spec fn pending_failure(&self) -> Option<ApiError> {
        self.stream.failure()
    }

    pub closed spec fn wf(&self) -> bool {
        &&& self.stream.wf()
        &&& self.stream.view() == marker_view(self.marker)
        &&& self.stream.filters() == rewindowed(
            marker_filters(self.marker),
            self.stream.filters().start,
            self.stream.window_end(),
        )
        &&& !self.done ==> forall|rs: Seq<Result<ReportEventsList, ApiError>>| #[trigger]
            search_spec(
                self.marker,
                self.stream.window_start(),
                self.stream.window_end(),
                self.delivered@ + rs,
            ) == resume(
                self.marker,
                self.skips_left as nat,
                self.stream.buffer(),
                self.stream.failure(),
                self.stream.next_fetch(),
                self.stream.window_start(),
                self.stream.window_end(),
                rs,
            )
    }

    /// The step's reply is what `search_spec` gives for the results handed back:
    /// a fetch of the next page, with the marker's view and filters; the selected
    /// event or none, whatever results would follow; or the failure.
    pub open spec fn replied(&self, step: SearchStep) -> bool {
        let m = self.marker();
        let ws = self.window_start();
        let we = self.window_end();
        match step {
            SearchStep::Fetch(v, f) => {
                &&& !self.is_done()
                &&& self.awaiting()
                &&& search_spec(m, ws, we, self.delivered()) == SearchOutcome::NeedsPage(f.start)
                &&& v == marker_view(m)
                &&& f == rewindowed(marker_filters(m), f.start, we)
                &&& f.start < we
            },
            SearchStep::Found(x) => {
                &&& self.is_done()
                &&& forall|rs: Seq<Result<ReportEventsList, ApiError>>| #[trigger]
                    search_spec(m, ws, we, self.delivered() + rs) == SearchOutcome::Found(x, rs)
                &&& x matches Some(ev) ==> in_window(ev, ws, we)
            },
            SearchStep::Failed(e) => {
                &&& self.is_done()
                &&& forall|rs: Seq<Result<ReportEventsList, ApiError>>| #[trigger]
                    search_spec(m, ws, we, self.delivered() + rs) == SearchOutcome::Failed(e)
            },
        }
    }

    /// Pulls events until the selected one is found, the stream ends, or a page
    /// has to be fetched.
    pub fn step(&mut self) -> (r: SearchStep)
        requires
            old(self).wf(),
            !old(self).is_done(),
            !old(self).awaiting(),
        ensures
            final(self).wf(),
            final(self).marker() == old(self).marker(),
            final(self).window_start() == old(self).window_start(),
            final(self).window_end() == old(self).window_end(),
            final(self).delivered() == old(self).delivered(),
            final(self).replied(r),
            r matches SearchStep::Failed(e) ==> old(self).pending_failure() == Some(e),
    {
        loop
            invariant
                self.wf(),
                !self.done,
                !self.stream.in_flight(),
                self.marker == old(self).marker,
                self.stream.same_request(&old(self).stream),
                self.delivered == old(self).delivered,
                self.stream.failure() == old(self).stream.failure(),
            decreases self.stream.buffer().len(),
        {
            let ghost ws = self.stream.window_start();
            let ghost we = self.stream.window_end();
            let ghost b = self.stream.buffer();
            let ghost skips = self.skips_left as nat;
            let ghost fail = self.stream.failure();
            let ghost cur = self.stream.next_fetch();
            let polled = self.stream.poll_next();
            match polled {
                StreamPoll::Ready(ev) => {
                    assert(in_window(b[0], ws, we));
                    if self.marker.check_event(&ev) && self.skips_left == 0 {
                        self.done = true;
                        proof {
                            assert forall|rs: Seq<Result<ReportEventsList, ApiError>>| #[trigger]
                                search_spec(self.marker, ws, we, self.delivered@ + rs)
                                    == SearchOutcome::Found(Some(ev), rs) by {
                                assert(resume(self.marker, skips, b, fail, cur, ws, we, rs)
                                    == SearchOutcome::Found(Some(ev), rs));
                            }
                        }
                        return SearchStep::Found(Some(ev));
                    }
                    if self.marker.check_event(&ev) {
                        self.skips_left = self.skips_left - 1;
                    }
                    proof {
                        assert forall|rs: Seq<Result<ReportEventsList, ApiError>>| #[trigger]
                            search_spec(self.marker, ws, we, self.delivered@ + rs) == resume(
                                self.marker,
                                self.skips_left as nat,
                                self.stream.buffer(),
                                self.stream.failure(),
                                self.stream.next_fetch(),
                                ws,
                                we,
                                rs,
                            ) by {
                            assert(resume(self.marker, skips, b, fail, cur, ws, we, rs) == resume(
                                self.marker,
                                self.skips_left as nat,
                                b.drop_first(),
                                fail,
                                cur,
                                ws,
                                we,
                                rs,
                            ));
                        }
                    }
                },
                StreamPoll::Fetch(view, f) => {
                    proof {
                        assert(self.delivered@ + Seq::empty() =~= self.delivered@);
                        assert(resume(self.marker, skips, b, fail, cur, ws, we, Seq::empty())
                            == SearchOutcome::NeedsPage(f.start));
                    }
                    return SearchStep::Fetch(view, f);
                },
                StreamPoll::Pending => {
                    proof {
                        assert(false);
                    }
                    self.done = true;
                    return SearchStep::Found(None);
                },
                StreamPoll::Failed(e) => {
                    self.done = true;
                    proof {
                        assert forall|rs: Seq<Result<ReportEventsList, ApiError>>| #[trigger]
                            search_spec(self.marker, ws, we, self.delivered@ + rs)
                                == SearchOutcome::Failed(e) by {
                            assert(resume(self.marker, skips, b, fail, cur, ws, we, rs)
                                == SearchOutcome::Failed(e));
                        }
                    }
                    return SearchStep::Failed(e);
                },
                StreamPoll::End => {
                    self.done = true;
                    proof {
                        assert forall|rs: Seq<Result<ReportEventsList, ApiError>>| #[trigger]
                            search_spec(self.marker, ws, we, self.delivered@ + rs)
                                == SearchOutcome::Found(None, rs) by {
                            assert(resume(self.marker, skips, b, fail, cur, ws, we, rs)
                                == SearchOutcome::Found(None, rs));
                        }
                    }
                    return SearchStep::Found(None);
                },
            }
        }
    }

    /// Hands back the outcome of the fetch asked for, and goes on searching.
    pub fn deliver(&mut self, page: Result<ReportEventsList, ApiError>) -> (r: SearchStep)
        requires
            old(self).wf(),
            !old(self).is_done(),
            old(self).awaiting(),
        ensures
            final(self).wf(),
            final(self).marker() == old(self).marker(),
            final(self).window_start() == old(self).window_start(),
            final(self).window_end() == old(self).window_end(),
            final(self).delivered() == old(self).delivered().push(page),
            final(self).replied(r),
            r matches SearchStep::Failed(e) ==> page == Err::<ReportEventsList, ApiError>(e),
    {
        let ghost ws = self.stream.window_start();
        let ghost we = self.stream.window_end();
        let ghost skips = self.skips_left as nat;
        let ghost cur = self.stream.next_fetch();
        let ghost before = self.delivered@;
        self.stream.receive_page(page);
        proof {
            self.delivered@ = self.delivered@.push(page);
            assert forall|rs: Seq<Result<ReportEventsList, ApiError>>| #[trigger] search_spec(
                self.marker,
                ws,
                we,
                self.delivered@ + rs,
            ) == resume(
                self.marker,
                self.skips_left as nat,
                self.stream.buffer(),
                self.stream.failure(),
                self.stream.next_fetch(),
                ws,
                we,
                rs,
            ) by {
                let rs1 = seq![page] + rs;
                assert(self.delivered@ + rs =~= before + rs1);
                assert(rs1.drop_first() =~= rs);
                assert(rs1[0] == page);
                assert(old(self).stream.buffer() =~= Seq::<ReportEvent>::empty());
                assert(self.stream.buffer().len() == 0 ==> self.stream.buffer() =~= Seq::<
                    ReportEvent,
                >::empty());
                assert(resume(self.marker, skips, Seq::empty(), None, cur, ws, we, rs1) == resume(
                    self.marker,
                    self.skips_left as nat,
                    self.stream.buffer(),
                    self.stream.failure(),
                    self.stream.next_fetch(),
                    ws,
                    we,
                    rs,
                ));
            }
        }
        self.step()
    }
}

} // verus!
