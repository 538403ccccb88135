//! The paginated event stream: a forward-only sequence of the events of a window,
//! fetched one page at a time with at most one fetch in flight.
//!
//! The stream does no I/O. `poll_next` either yields an event or asks its caller to
//! fetch a page, and the caller hands the outcome back through `receive_page`.
use vstd::prelude::*;
use vstd::string::StringExecFns;

use crate::errors::ApiError;
use crate::events::{event_timestamp, ReportEvent};
use crate::query::{rewindowed, view_path, EventFilters, EventsView, ReportEventsList};

verus! {

/// The event carries a timestamp inside `[start, end)`.
pub open spec fn in_window(ev: ReportEvent, start: u64, end: u64) -> bool {
    match event_timestamp(ev) {
        Some(t) => start <= t && t < end,
        None => false,
    }
}

/// The events of `s` that lie in `[start, end)`, in their order.
pub open spec fn window_events(s: Seq<ReportEvent>, start: u64, end: u64) -> Seq<ReportEvent>
    decreases s.len(),
{
    if s.len() == 0 {
        Seq::empty()
    } else {
        let prev = window_events(s.drop_last(), start, end);
        if in_window(s.last(), start, end) {
            prev.push(s.last())
        } else {
            prev
        }
    }
}

/// The concatenation of the in-window events of each page, page after page.
pub open spec fn flatten_pages(pages: Seq<Seq<ReportEvent>>, start: u64, end: u64) -> Seq<ReportEvent>
    decreases pages.len(),
{
    if pages.len() == 0 {
        Seq::empty()
    } else {
        flatten_pages(pages.drop_last(), start, end) + window_events(pages.last(), start, end)
    }
}

/// The request path of the events of a report in one view.
pub fn construct_path(view: &EventsView, report_code: &String) -> (r: String)
    ensures
        r@ == "/v1/report/events/"@ + view_path(*view) + "/"@ + report_code@,
{
    let mut path = String::new();
    path.append("/v1/report/events/");
    path.append(view.path_name());
    path.append("/");
    path.append(report_code.as_str());
    path
}

/// What one pull on a stream gives.
#[derive(Debug)]
pub enum StreamPoll {
    /// The next event of the sequence.
    Ready(ReportEvent),
    /// Fetch the page that these filters select from this view, then hand the
    /// outcome to `receive_page`.
    Fetch(EventsView, EventFilters),
    /// The fetch asked for earlier has not been handed back yet.
    Pending,
    /// The fetch failed; the sequence ends after this error.
    Failed(ApiError),
    /// The sequence is exhausted.
    End,
}

/// A lazy, single-pass sequence of the events of one window.
///
/// Its state is private; what callers may rely on is stated over the spec
/// accessors below.
pub struct EventsStream {
    view: EventsView,
    report_code: String,
    filters: EventFilters,
    window_start: u64,
    buffer: Vec<ReportEvent>,
    next_page_timestamp: Option<u64>,
    in_flight: bool,
    failure: Option<ApiError>,
    finished: bool,
    ended_by_page: Ghost<bool>,
    pages: Ghost<Seq<Seq<ReportEvent>>>,
    yielded: Ghost<Seq<ReportEvent>>,
    requests: Ghost<Seq<u64>>,
}

impl EventsStream {
    /// The view the pages are asked from.
    pub closed spec fn view(&self) -> EventsView {
        self.view
    }

    pub closed spec fn report_code(&self) -> Seq<char> {
        self.report_code@
    }

    /// The filters of the requests; `start` is that of the latest page asked for.
    pub closed spec fn filters(&self) -> EventFilters {
        self.filters
    }

    /// The start of the window the stream was made for.
    pub closed spec fn window_start(&self) -> u64 {
        self.window_start
    }

    /// The end of the window.
    pub closed spec fn window_end(&self) -> u64 {
        self.filters.end
    }

    /// Events fetched and not yet yielded, in order.
    pub closed spec fn buffer(&self) -> Seq<ReportEvent> {
        self.buffer@
    }

    /// A failed fetch, still to be delivered.
    pub closed spec fn failure(&self) -> Option<ApiError> {
        self.failure
    }

    /// A fetch has been asked for and its outcome not yet handed back.
    pub closed spec fn in_flight(&self) -> bool {
        self.in_flight
    }

    /// Where the next page starts; `None` once the sequence has ended or the
    /// source said there is no more.
    pub closed spec fn next_fetch(&self) -> Option<u64> {
        if self.finished {
            None
        } else {
            self.next_page_timestamp
        }
    }

    /// The events of each non-empty page handed back, page after page.
    pub closed spec fn pages(&self) -> Seq<Seq<ReportEvent>> {
        self.pages@
    }

    /// The events yielded so far.
    pub closed spec fn yielded(&self) -> Seq<ReportEvent> {
        self.yielded@
    }

    /// The start of every page fetch asked for, in order.
    pub closed spec fn requests(&self) -> Seq<u64> {
        self.requests@
    }

    /// Every event handed back in a page that lies in the window, in order.
    pub open spec fn fetched(&self) -> Seq<ReportEvent> {
        flatten_pages(self.pages(), self.window_start(), self.window_end())
    }

    /// The sequence only ends for a reason: the source has no next page, the next
    /// page starts at or past the window's end, or a page came back empty or failed.
    pub closed spec fn inv(&self) -> bool {
        &&& self.in_flight ==> !self.finished && self.failure is None
        &&& self.failure is Some ==> !self.finished
        &&& self.finished ==> self.failure is None && (self.next_page_timestamp is None
            || self.next_page_timestamp->0 >= self.filters.end || self.ended_by_page@)
    }

    pub open spec fn wf(&self) -> bool {
        &&& self.inv()
        &&& self.yielded() + self.buffer() == self.fetched()
        &&& self.in_flight() ==> {
            &&& self.buffer().len() == 0
            &&& self.failure() is None
            &&& self.next_fetch() matches Some(t) && t < self.window_end()
        }
        &&& self.failure() is Some ==> self.buffer().len() == 0
        &&& forall|i: int|
            0 <= i < self.requests().len() ==> #[trigger] self.requests()[i] < self.window_end()
        &&& forall|i: int|
            0 <= i < self.yielded().len() ==> in_window(
                #[trigger] self.yielded()[i],
                self.window_start(),
                self.window_end(),
            )
        &&& forall|i: int|
            0 <= i < self.buffer().len() ==> in_window(
                #[trigger] self.buffer()[i],
                self.window_start(),
                self.window_end(),
            )
    }

    /// What a pull gives once nothing is buffered: a wait while a fetch is in
    /// flight, a stored failure, a fetch of the next page if it starts before the
    /// window's end, or the end of the sequence.
    pub open spec fn next_poll(&self) -> StreamPoll {
        if self.in_flight() {
            StreamPoll::Pending
        } else if self.failure() is Some {
            StreamPoll::Failed(self.failure()->0)
        } else {
            match self.next_fetch() {
                Some(t) => if t < self.window_end() {
                    StreamPoll::Fetch(self.view(), rewindowed(self.filters(), t, self.window_end()))
                } else {
                    StreamPoll::End
                },
                None => StreamPoll::End,
            }
        }
    }

    /// The stream has the view and the window of `other`.
    pub open spec fn same_request(&self, other: &EventsStream) -> bool {
        &&& self.view() == other.view()
        &&& self.report_code() == other.report_code()
        &&& self.window_start() == other.window_start()
        &&& self.window_end() == other.window_end()
    }

    /// The state after a pull with nothing buffered gave `r`.
    pub open spec fn after_poll(&self, old: &EventsStream, r: StreamPoll) -> bool {
        &&& self.buffer().len() == 0
        &&& self.yielded() == old.yielded()
        &&& self.pages() == old.pages()
        &&& match r {
            StreamPoll::Pending => {
                &&& self.in_flight()
                &&& self.failure() == old.failure()
                &&& self.next_fetch() == old.next_fetch()
                &&& self.filters() == old.filters()
                &&& self.requests() == old.requests()
            },
            StreamPoll::Fetch(_, f) => {
                &&& self.in_flight()
                &&& self.failure() is None
                &&& self.next_fetch() == Some(f.start)
                &&& self.filters() == f
                &&& self.requests() == old.requests().push(f.start)
            },
            _ => {
                &&& !self.in_flight()
                &&& self.failure() is None
                &&& self.next_fetch() is None
                &&& self.filters() == old.filters()
                &&& self.requests() == old.requests()
            },
        }
    }
}

proof fn lemma_same_history(new: &EventsStream, old: &EventsStream)
    requires
        old.wf(),
        new.yielded() == old.yielded(),
        new.requests() == old.requests(),
        new.buffer() == old.buffer(),
        new.window_start() == old.window_start(),
        new.window_end() == old.window_end(),
    ensures
        forall|i: int| 0 <= i < new.requests().len() ==> #[trigger] new.requests()[i] < new.window_end(),
        forall|i: int|
            0 <= i < new.yielded().len() ==> in_window(
                #[trigger] new.yielded()[i],
                new.window_start(),
                new.window_end(),
            ),
        forall|i: int|
            0 <= i < new.buffer().len() ==> in_window(
                #[trigger] new.buffer()[i],
                new.window_start(),
                new.window_end(),
            ),
{
    assert forall|i: int| 0 <= i < new.requests().len() implies #[trigger] new.requests()[i]
        < new.window_end() by {
        assert(new.requests()[i] == old.requests()[i]);
    }
    assert forall|i: int| 0 <= i < new.yielded().len() implies in_window(
        #[trigger] new.yielded()[i],
        new.window_start(),
        new.window_end(),
    ) by {
        assert(new.yielded()[i] == old.yielded()[i]);
    }
    assert forall|i: int| 0 <= i < new.buffer().len() implies in_window(
        #[trigger] new.buffer()[i],
        new.window_start(),
        new.window_end(),
    ) by {
        assert(new.buffer()[i] == old.buffer()[i]);
    }
}

/// Makes a stream over the events of `filters`' window. No page is fetched until
/// the first pull.
pub fn get_event_iterator(view: EventsView, report_code: &String, filters: EventFilters) -> (r:
    EventsStream)
    ensures
        r.wf(),
        r.view() == view,
        r.report_code() == report_code@,
        r.filters() == filters,
        r.window_start() == filters.start,
        r.window_end() == filters.end,
        r.next_fetch() == Some(filters.start),
        r.buffer().len() == 0,
        !r.in_flight(),
        r.failure() is None,
        r.pages().len() == 0,
        r.yielded().len() == 0,
        r.requests().len() == 0,
{
    let start = filters.start;
    let r = EventsStream {
        view,
        report_code: report_code.clone(),
        filters,
        window_start: start,
        buffer: Vec::new(),
        next_page_timestamp: Some(start),
        in_flight: false,
        failure: None,
        finished: false,
        ended_by_page: Ghost(false),
        pages: Ghost(Seq::empty()),
        yielded: Ghost(Seq::empty()),
        requests: Ghost(Seq::empty()),
    };
    proof {
        assert(r.yielded@ + r.buffer@ =~= r.fetched());
    }
    r
}

impl EventsStream {
    /// Pulls once. Buffered events come first; with none left, the pull gives
    /// `next_poll`: at most one fetch is in flight, and none starts at or past the
    /// window's end.
    pub fn poll_next(&mut self) -> (r: StreamPoll)
        requires
            old(self).wf(),
        ensures
            final(self).wf(),
            final(self).same_request(old(self)),
            old(self).buffer().len() > 0 ==> {
                &&& r == StreamPoll::Ready(old(self).buffer()[0])
                &&& final(self).buffer() == old(self).buffer().drop_first()
                &&& final(self).yielded() == old(self).yielded().push(old(self).buffer()[0])
                &&& final(self).pages() == old(self).pages()
                &&& final(self).requests() == old(self).requests()
                &&& final(self).in_flight() == old(self).in_flight()
                &&& final(self).failure() == old(self).failure()
                &&& final(self).next_fetch() == old(self).next_fetch()
                &&& final(self).filters() == old(self).filters()
            },
            old(self).buffer().len() == 0 ==> r == old(self).next_poll() && final(self).after_poll(
                old(self),
                r,
            ),
            r is End ==> final(self).yielded() == final(self).fetched(),
    {
        if self.buffer.len() > 0 {
            let ev = self.buffer.remove(0);
            proof {
                let prev = self.yielded@;
                self.yielded@ = self.yielded@.push(ev);
                assert(self.yielded@ + self.buffer@ =~= old(self).yielded@ + old(self).buffer@);
                assert(self.buffer@ =~= old(self).buffer@.drop_first());
                assert forall|i: int| 0 <= i < self.yielded@.len() implies in_window(
                    #[trigger] self.yielded@[i],
                    self.window_start,
                    self.filters.end,
                ) by {
                    if i < prev.len() {
                        assert(self.yielded@[i] == prev[i]);
                    }
                }
                assert forall|i: int| 0 <= i < self.buffer@.len() implies in_window(
                    #[trigger] self.buffer@[i],
                    self.window_start,
                    self.filters.end,
                ) by {
                    assert(self.buffer@[i] == old(self).buffer@[i + 1]);
                }
            }
            proof {
                assert forall|i: int| 0 <= i < self.requests().len() implies #[trigger] self.requests()[i]
                    < self.window_end() by {
                    assert(self.requests()[i] == old(self).requests()[i]);
                }
            }
            return StreamPoll::Ready(ev);
        }
        if self.in_flight {
            return StreamPoll::Pending;
        }
        if self.failure.is_some() {
            let e = self.failure.take();
            self.finished = true;
            proof {
                self.ended_by_page@ = true;
                lemma_same_history(self, old(self));
            }
            match e {
                Some(e) => {
                    return StreamPoll::Failed(e);
                },
                None => {
                    return StreamPoll::End;
                },
            }
        }
        proof {
            assert(self.yielded@ + self.buffer@ =~= self.yielded@);
        }
        if self.finished {
            return StreamPoll::End;
        }
        match self.next_page_timestamp {
            None => {
                self.finished = true;
                proof {
                    lemma_same_history(self, old(self));
                }
                StreamPoll::End
            },
            Some(t) => {
                if t >= self.filters.end {
                    self.finished = true;
                    proof {
                        lemma_same_history(self, old(self));
                    }
                    StreamPoll::End
                } else {
                    let end = self.filters.end;
                    self.filters.start = t;
                    self.in_flight = true;
                    proof {
                        self.requests@ = self.requests@.push(t);
                        assert(self.filters == rewindowed(old(self).filters, t, end));
                        assert forall|i: int| 0 <= i < self.requests().len() implies #[trigger]
                            self.requests()[i] < self.window_end() by {
                            if i < old(self).requests().len() {
                                assert(self.requests()[i] == old(self).requests()[i]);
                            }
                        }
                    }
                    StreamPoll::Fetch(self.view, self.filters.with_window(t, end))
                }
            },
        }
    }

    /// Hands back the outcome of the fetch in flight. An empty page ends the
    /// sequence; otherwise its events that lie in the window are buffered and the
    /// next page starts where the page says. A failure is delivered by the next
    /// pull, and ends the sequence after it.
    ///
    /// A page starts at the previous page's `next_page_timestamp`, inclusive. An
    /// event the source hands back both at the end of one page and at the start of
    /// the next is yielded twice: pages are not de-duplicated.
    pub fn receive_page(&mut self, page: Result<ReportEventsList, ApiError>)
        requires
            old(self).wf(),
            old(self).in_flight(),
        ensures
            final(self).wf(),
            final(self).same_request(old(self)),
            final(self).filters() == old(self).filters(),
            final(self).yielded() == old(self).yielded(),
            final(self).requests() == old(self).requests(),
            !final(self).in_flight(),
            match page {
                Ok(p) => if p.events@.len() == 0 {
                    &&& final(self).buffer().len() == 0
                    &&& final(self).failure() is None
                    &&& final(self).next_fetch() is None
                    &&& final(self).pages() == old(self).pages()
                } else {
                    &&& final(self).failure() is None
                    &&& final(self).pages() == old(self).pages().push(p.events@)
                    &&& final(self).buffer() == window_events(
                        p.events@,
                        old(self).window_start(),
                        old(self).window_end(),
                    )
                    &&& final(self).next_fetch() == p.next_page_timestamp
                },
                Err(e) => {
                    &&& final(self).buffer().len() == 0
                    &&& final(self).failure() == Some(e)
                    &&& final(self).pages() == old(self).pages()
                },
            },
    {
        self.in_flight = false;
        match page {
            Err(e) => {
                self.failure = Some(e);
                proof {
                    lemma_same_history(self, old(self));
                }
            },
            Ok(p) => {
                if p.events.len() == 0 {
                    self.finished = true;
                    proof {
                        self.ended_by_page@ = true;
                        assert(self.yielded@ + self.buffer@ =~= self.yielded@);
                        lemma_same_history(self, old(self));
                    }
                } else {
                    let ws = self.window_start;
                    let we = self.filters.end;
                    let mut kept: Vec<ReportEvent> = Vec::new();
                    let mut i: usize = 0;
                    while i < p.events.len()
                        invariant
                            0 <= i <= p.events@.len(),
                            kept@ == window_events(p.events@.take(i as int), ws, we),
                            forall|k: int| 0 <= k < kept@.len() ==> in_window(#[trigger] kept@[k], ws, we),
                        decreases p.events@.len() - i,
                    {
                        proof {
                            assert(p.events@.take(i as int + 1).drop_last() =~= p.events@.take(
                                i as int,
                            ));
                        }
                        let ts = p.events[i].get_timestamp();
                        match ts {
                            Some(t) => {
                                if ws <= t && t < we {
                                    let ev = p.events[i].duplicate();
                                    kept.push(ev);
                                }
                            },
                            None => {},
                        }
                        i = i + 1;
                    }
                    self.buffer = kept;
                    proof {
                        assert(p.events@.take(p.events@.len() as int) =~= p.events@);
                        let old_pages = self.pages@;
                        self.pages@ = self.pages@.push(p.events@);
                        assert(self.pages@.drop_last() =~= old_pages);
                        assert(old(self).yielded@ =~= old(self).yielded@ + old(self).buffer@);
                    }
                    self.next_page_timestamp = p.next_page_timestamp;
                    proof {
                        assert forall|i: int| 0 <= i < self.requests().len() implies #[trigger]
                            self.requests()[i] < self.window_end() by {
                            assert(self.requests()[i] == old(self).requests()[i]);
                        }
                        assert forall|i: int| 0 <= i < self.yielded().len() implies in_window(
                            #[trigger] self.yielded()[i],
                            self.window_start(),
                            self.window_end(),
                        ) by {
                            assert(self.yielded()[i] == old(self).yielded()[i]);
                        }
                    }
                }
            },
        }
    }
}

/// Pulls every event the stream can give without a new fetch, appending them to
/// `events`, and gives the pull that follows: what `next_poll` says of the
/// drained stream. Driving a stream with it until `End` collects every event of
/// the window.
pub fn request_all_events(stream: &mut EventsStream, events: &mut Vec<ReportEvent>) -> (r: StreamPoll)
    requires
        old(stream).wf(),
    ensures
        final(stream).wf(),
        final(stream).same_request(old(stream)),
        final(stream).pages() == old(stream).pages(),
        final(stream).yielded() == old(stream).yielded() + old(stream).buffer(),
        final(events)@ == old(events)@ + old(stream).buffer(),
        r == old(stream).next_poll(),
        r is End ==> final(stream).yielded() == final(stream).fetched(),
        r matches StreamPoll::Fetch(_, f) ==> f.start < f.end,
{
    loop
        invariant
            stream.wf(),
            stream.same_request(old(stream)),
            stream.pages() == old(stream).pages(),
            stream.yielded() + stream.buffer() == old(stream).yielded() + old(stream).buffer(),
            events@ + stream.buffer() == old(events)@ + old(stream).buffer(),
            stream.in_flight() == old(stream).in_flight(),
            stream.failure() == old(stream).failure(),
            stream.next_fetch() == old(stream).next_fetch(),
            stream.filters() == old(stream).filters(),
        decreases stream.buffer().len(),
    {
        let ghost before = stream.buffer();
        let ghost seen = events@;
        let polled = stream.poll_next();
        match polled {
            StreamPoll::Ready(ev) => {
                events.push(ev);
                proof {
                    assert(before =~= seq![ev] + stream.buffer());
                    assert(events@ + stream.buffer() =~= seen + before);
                }
            },
            other => {
                proof {
                    assert(events@ =~= events@ + stream.buffer());
                    assert(stream.yielded() =~= stream.yielded() + stream.buffer());
                }
                return other;
            },
        }
    }
}

} // verus!
