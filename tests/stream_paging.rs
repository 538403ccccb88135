use fight_progress::errors::ApiError;
use fight_progress::events::{BeginCast, ReportEvent};
use fight_progress::query::{EventFilters, EventsView, ReportEventsList};
use fight_progress::stream::{construct_path, get_event_iterator, request_all_events, EventsStream, StreamPoll};
use fight_progress::types::{Ability, Source};

fn cast_at(timestamp: u64, ability: i64) -> ReportEvent {
    ReportEvent::BeginCast(BeginCast {
        timestamp,
        source: Source { id: Some(1), source_data: None, is_friendly: false, resources: None },
        target: None,
        ability: Ability { name: "Ability".to_string(), guid: ability, ability_type: 1, icon: None },
        packet_id: None,
    })
}

fn page(times: &[u64], next: Option<u64>) -> ReportEventsList {
    ReportEventsList { events: times.iter().map(|t| cast_at(*t, 7)).collect(), next_page_timestamp: next }
}

fn timestamps_until_fetch(stream: &mut EventsStream) -> (Vec<u64>, StreamPoll) {
    let mut out = Vec::new();
    loop {
        match stream.poll_next() {
            StreamPoll::Ready(ev) => out.push(ev.get_timestamp().unwrap()),
            other => return (out, other),
        }
    }
}

#[test]
fn first_pull_asks_for_the_window_start() {
    let mut stream = get_event_iterator(EventsView::Casts, &"abc".to_string(), EventFilters::window(100, 500));
    match stream.poll_next() {
        StreamPoll::Fetch(view, f) => {
            assert_eq!(view, EventsView::Casts);
            assert_eq!(f.start, 100);
            assert_eq!(f.end, 500);
        }
        other => panic!("expected a fetch, got {:?}", other),
    }
}

#[test]
fn pages_are_concatenated_in_order_then_the_stream_ends() {
    let mut stream = get_event_iterator(EventsView::Casts, &"abc".to_string(), EventFilters::window(100, 500));
    assert!(matches!(stream.poll_next(), StreamPoll::Fetch(_, _)));
    stream.receive_page(Ok(page(&[100, 150, 200], Some(250))));
    let (first, next) = timestamps_until_fetch(&mut stream);
    assert_eq!(first, vec![100, 150, 200]);
    match next {
        StreamPoll::Fetch(_, f) => assert_eq!(f.start, 250),
        other => panic!("expected a fetch, got {:?}", other),
    }
    stream.receive_page(Ok(page(&[250, 300], None)));
    let (second, last) = timestamps_until_fetch(&mut stream);
    assert_eq!(second, vec![250, 300]);
    assert!(matches!(last, StreamPoll::End));
    assert!(matches!(stream.poll_next(), StreamPoll::End));
}

#[test]
fn events_outside_the_window_are_dropped() {
    let mut stream = get_event_iterator(EventsView::Casts, &"abc".to_string(), EventFilters::window(100, 300));
    assert!(matches!(stream.poll_next(), StreamPoll::Fetch(_, _)));
    let mut p = page(&[50, 100, 299, 300, 400], None);
    p.events.insert(2, ReportEvent::UnparseableEvent);
    stream.receive_page(Ok(p));
    let (got, last) = timestamps_until_fetch(&mut stream);
    assert_eq!(got, vec![100, 299]);
    assert!(matches!(last, StreamPoll::End));
}

#[test]
fn no_fetch_at_or_past_the_window_end() {
    let mut stream = get_event_iterator(EventsView::Casts, &"abc".to_string(), EventFilters::window(0, 300));
    assert!(matches!(stream.poll_next(), StreamPoll::Fetch(_, _)));
    stream.receive_page(Ok(page(&[10], Some(300))));
    let (got, last) = timestamps_until_fetch(&mut stream);
    assert_eq!(got, vec![10]);
    assert!(matches!(last, StreamPoll::End));
}

#[test]
fn empty_window_never_fetches() {
    let mut stream = get_event_iterator(EventsView::Casts, &"abc".to_string(), EventFilters::window(300, 300));
    assert!(matches!(stream.poll_next(), StreamPoll::End));
}

#[test]
fn an_empty_page_ends_the_stream() {
    let mut stream = get_event_iterator(EventsView::Casts, &"abc".to_string(), EventFilters::window(0, 300));
    assert!(matches!(stream.poll_next(), StreamPoll::Fetch(_, _)));
    stream.receive_page(Ok(page(&[], Some(100))));
    assert!(matches!(stream.poll_next(), StreamPoll::End));
}

#[test]
fn only_one_fetch_in_flight() {
    let mut stream = get_event_iterator(EventsView::Casts, &"abc".to_string(), EventFilters::window(0, 300));
    assert!(matches!(stream.poll_next(), StreamPoll::Fetch(_, _)));
    assert!(matches!(stream.poll_next(), StreamPoll::Pending));
    assert!(matches!(stream.poll_next(), StreamPoll::Pending));
    stream.receive_page(Ok(page(&[5], None)));
    assert!(matches!(stream.poll_next(), StreamPoll::Ready(_)));
}

#[test]
fn a_failed_fetch_is_delivered_then_the_stream_ends() {
    let mut stream = get_event_iterator(EventsView::Casts, &"abc".to_string(), EventFilters::window(0, 300));
    assert!(matches!(stream.poll_next(), StreamPoll::Fetch(_, _)));
    stream.receive_page(Err(ApiError::ApiReturnedError(429, "slow down".to_string())));
    match stream.poll_next() {
        StreamPoll::Failed(ApiError::ApiReturnedError(code, body)) => {
            assert_eq!(code, 429);
            assert_eq!(body, "slow down");
        }
        other => panic!("expected the failure, got {:?}", other),
    }
    assert!(matches!(stream.poll_next(), StreamPoll::End));
}

#[test]
fn fetch_keeps_the_field_filters() {
    let mut filters = EventFilters::window(10, 90);
    filters.ability_id = Some(42);
    filters.source_class = Some("Paladin".to_string());
    let mut stream = get_event_iterator(EventsView::Casts, &"abc".to_string(), filters);
    match stream.poll_next() {
        StreamPoll::Fetch(_, f) => {
            assert_eq!(f.ability_id, Some(42));
            assert_eq!(f.source_class, Some("Paladin".to_string()));
        }
        other => panic!("expected a fetch, got {:?}", other),
    }
}

#[test]
fn event_path_names_view_and_report() {
    assert_eq!(construct_path(&EventsView::Casts, &"AbCd".to_string()), "/v1/report/events/casts/AbCd");
    assert_eq!(construct_path(&EventsView::DamageDone, &"x".to_string()), "/v1/report/events/damage-done/x");
}

#[test]
fn all_events_of_a_window_are_collected_page_by_page() {
    let mut stream = get_event_iterator(EventsView::Casts, &"abc".to_string(), EventFilters::window(0, 1000));
    let pages = vec![page(&[1, 2], Some(3)), page(&[3, 4, 1200], Some(5)), page(&[], Some(8))];
    let mut events = Vec::new();
    let mut answered = 0;
    loop {
        match request_all_events(&mut stream, &mut events) {
            StreamPoll::Fetch(_, _) => {
                stream.receive_page(Ok(pages[answered].clone()));
                answered += 1;
            }
            StreamPoll::End => break,
            other => panic!("unexpected {:?}", other),
        }
    }
    assert_eq!(answered, 3);
    let times: Vec<u64> = events.iter().map(|e| e.get_timestamp().unwrap()).collect();
    assert_eq!(times, vec![1, 2, 3, 4]);
}
