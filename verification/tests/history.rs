use room_history::cursor::SyncCursor;
use room_history::error::{DecodeError, FetchError, ReconstructionError};
use room_history::event::{Event, EventMeta};
use room_history::history::{FetchRequest, Progress, Reconstructor};
use room_history::json::Json;
use room_history::page::{Direction, Page};
use std::cell::Cell;

fn message(id: &str, body: &str) -> Event {
    Event::RoomMessage {
        body: body.to_string(),
        msgtype: "m.text".to_string(),
        meta: EventMeta {
            event_id: id.to_string(),
            origin_server_ts: 1,
            sender: "@ann:example.org".to_string(),
        },
    }
}

fn page(events: Vec<Event>, start: &str, end: &str) -> Page {
    Page { events, start: start.to_string(), end: end.to_string() }
}

fn begin(seed: Vec<Event>, from: &str) -> Reconstructor {
    Reconstructor::begin(
        "!room:example.org".to_string(),
        seed,
        SyncCursor::new("s1".to_string(), from.to_string()),
        Direction::Backward,
    )
}

fn ids(events: &[Event]) -> Vec<String> {
    events.iter().map(|e| e.event_id().cloned().unwrap_or_default()).collect()
}

/// Runs a reconstruction against a transport, as a session would.
fn reconstruct(
    seed: Vec<Event>,
    from: &str,
    fetch: &dyn Fn(&FetchRequest) -> Result<Page, FetchError>,
) -> Result<Vec<Event>, ReconstructionError> {
    let mut state = begin(seed, from);
    loop {
        let request = state.request();
        match state.on_page(fetch(&request)) {
            Progress::More(next) => state = next,
            Progress::Done(events) => return Ok(events),
            Progress::Failed(error) => return Err(error),
        }
    }
}

#[test]
fn first_request_uses_the_seed_cursor() {
    let state = begin(vec![], "t0");
    assert_eq!(
        state.request(),
        FetchRequest {
            room_id: "!room:example.org".to_string(),
            from: "t0".to_string(),
            direction: Direction::Backward,
        }
    );
    let forward = Reconstructor::begin(
        "!r".to_string(),
        vec![],
        SyncCursor::new("s".to_string(), "p".to_string()),
        Direction::Forward,
    );
    assert_eq!(forward.request().direction, Direction::Forward);
}

#[test]
fn seed_is_gathered_in_order_without_repetitions() {
    let state = begin(vec![message("$a", "1"), message("$b", "2"), message("$a", "3")], "t0");
    assert_eq!(state.events(), &vec![message("$a", "1"), message("$b", "2")]);
}

#[test]
fn exhaustion_ends_after_exactly_k_fetches() {
    let calls = Cell::new(0usize);
    let fetch = |request: &FetchRequest| {
        calls.set(calls.get() + 1);
        assert_eq!(request.room_id, "!room:example.org");
        match calls.get() {
            1 => {
                assert_eq!(request.from, "t0");
                Ok(page(vec![message("$3", "c"), message("$2", "b")], "t0", "t1"))
            },
            2 => {
                assert_eq!(request.from, "t1");
                Ok(page(vec![message("$1", "a")], "t1", "t2"))
            },
            3 => {
                assert_eq!(request.from, "t2");
                Ok(page(vec![], "t2", "t3"))
            },
            _ => panic!("fetched after the end"),
        }
    };
    let events = reconstruct(vec![message("$4", "d")], "t0", &fetch).unwrap();
    assert_eq!(calls.get(), 3);
    assert_eq!(ids(&events), vec!["$4", "$3", "$2", "$1"]);
}

#[test]
fn empty_first_page_gives_the_seed() {
    let calls = Cell::new(0usize);
    let fetch = |_: &FetchRequest| {
        calls.set(calls.get() + 1);
        Ok(page(vec![], "t0", "t0"))
    };
    let events = reconstruct(vec![message("$4", "d")], "t0", &fetch).unwrap();
    assert_eq!(calls.get(), 1);
    assert_eq!(events, vec![message("$4", "d")]);
}

#[test]
fn no_progress_ends_after_one_fetch_with_that_page() {
    let calls = Cell::new(0usize);
    let fetch = |request: &FetchRequest| {
        calls.set(calls.get() + 1);
        Ok(page(vec![message("$2", "b"), message("$1", "a")], "t0", &request.from))
    };
    let events = reconstruct(vec![message("$3", "c")], "t0", &fetch).unwrap();
    assert_eq!(calls.get(), 1);
    assert_eq!(ids(&events), vec!["$3", "$2", "$1"]);
}

#[test]
fn no_progress_on_a_later_page_ends_there() {
    let calls = Cell::new(0usize);
    let fetch = |_: &FetchRequest| {
        calls.set(calls.get() + 1);
        match calls.get() {
            1 => Ok(page(vec![message("$2", "b")], "t0", "t1")),
            _ => Ok(page(vec![message("$1", "a")], "t1", "t1")),
        }
    };
    let events = reconstruct(vec![], "t0", &fetch).unwrap();
    assert_eq!(calls.get(), 2);
    assert_eq!(ids(&events), vec!["$2", "$1"]);
}

#[test]
fn transport_failure_on_second_call_fails_the_reconstruction() {
    let calls = Cell::new(0usize);
    let fetch = |_: &FetchRequest| {
        calls.set(calls.get() + 1);
        match calls.get() {
            1 => Ok(page(vec![message("$2", "b")], "t0", "t1")),
            _ => Err(FetchError::Transport("connection reset".to_string())),
        }
    };
    let outcome = reconstruct(vec![message("$3", "c")], "t0", &fetch);
    assert_eq!(calls.get(), 2);
    assert_eq!(
        outcome,
        Err(ReconstructionError {
            room_id: "!room:example.org".to_string(),
            cause: FetchError::Transport("connection reset".to_string()),
        })
    );
    let exhausted = reconstruct(vec![], "t0", &|_: &FetchRequest| Ok(page(vec![], "t0", "t1")));
    assert_eq!(exhausted, Ok(vec![]));
    assert_ne!(outcome, exhausted);
}

#[test]
fn malformed_page_fails_the_reconstruction() {
    let fetch = |_: &FetchRequest| {
        let answer = Json::Object(vec![("start".to_string(), Json::Text("t0".to_string()))]);
        Page::parse(&answer).map_err(FetchError::Decode)
    };
    assert_eq!(
        reconstruct(vec![message("$3", "c")], "t0", &fetch),
        Err(ReconstructionError {
            room_id: "!room:example.org".to_string(),
            cause: FetchError::Decode(DecodeError::Schema("chunk".to_string())),
        })
    );
}

#[test]
fn failure_message_names_room_and_cause() {
    let error = ReconstructionError {
        room_id: "!room:example.org".to_string(),
        cause: FetchError::Transport("timed out".to_string()),
    };
    assert_eq!(
        error.message(),
        "reconstruction of room !room:example.org failed: transport failure: timed out"
    );
    let decode = ReconstructionError {
        room_id: "!r".to_string(),
        cause: FetchError::Decode(DecodeError::Schema("end".to_string())),
    };
    assert_eq!(
        decode.message(),
        "reconstruction of room !r failed: missing or mistyped member: end"
    );
    assert_eq!(
        DecodeError::Syntax("eof".to_string()).message(),
        "malformed document: eof"
    );
    assert_eq!(FetchError::Transport("x".to_string()).message(), "transport failure: x");
}

#[test]
fn duplicates_across_seed_and_pages_are_dropped_first_wins() {
    let state = begin(vec![message("$2", "live"), message("$3", "live")], "t0");
    let next = state.on_page(Ok(page(
        vec![message("$3", "old"), message("$1", "old"), message("$1", "again")],
        "t0",
        "t1",
    )));
    let state = match next {
        Progress::More(state) => state,
        other => panic!("unexpected {:?}", other),
    };
    assert_eq!(
        state.events(),
        &vec![message("$2", "live"), message("$3", "live"), message("$1", "old")]
    );
    assert_eq!(state.request().from, "t1");
}

#[test]
fn events_without_identifier_are_never_dropped() {
    let bare = Event::Unknown(Json::Object(vec![("type".to_string(), Json::Text("x".to_string()))]));
    let state = begin(vec![bare.clone(), bare.clone()], "t0");
    assert_eq!(state.events().len(), 2);
    let with_id = Event::Unknown(Json::Object(vec![(
        "event_id".to_string(),
        Json::Text("$u".to_string()),
    )]));
    let state = begin(vec![with_id.clone(), message("$u", "same id"), with_id.clone()], "t0");
    assert_eq!(state.events(), &vec![with_id]);
}

#[test]
fn arrival_order_is_kept_whatever_the_timestamps() {
    let stamped = |id: &str, ts: u64| Event::RoomEncrypted {
        meta: EventMeta {
            event_id: id.to_string(),
            origin_server_ts: ts,
            sender: "@ann:example.org".to_string(),
        },
    };
    let (progress, used) = begin(vec![stamped("$a", 900)], "t0").replay(vec![
        Ok(page(vec![stamped("$b", 100), stamped("$c", 950)], "t0", "t1")),
        Ok(page(vec![], "t1", "t2")),
    ]);
    assert_eq!(used, 2);
    match progress {
        Progress::Done(events) => assert_eq!(ids(&events), vec!["$a", "$b", "$c"]),
        other => panic!("unexpected {:?}", other),
    }
}

fn recorded() -> Vec<Result<Page, FetchError>> {
    vec![
        Ok(page(vec![message("$3", "c"), message("$2", "b")], "t0", "t1")),
        Ok(page(vec![message("$2", "b"), message("$1", "a")], "t1", "t2")),
        Ok(page(vec![], "t2", "t2")),
        Ok(page(vec![message("$0", "never asked for")], "t2", "t3")),
    ]
}

#[test]
fn replaying_the_same_pages_gives_the_same_history() {
    let (first, used_first) = begin(vec![message("$4", "d")], "t0").replay(recorded());
    let (second, used_second) = begin(vec![message("$4", "d")], "t0").replay(recorded());
    assert_eq!(first, second);
    assert_eq!(used_first, 3);
    assert_eq!(used_second, 3);
    let events = match first {
        Progress::Done(events) => events,
        other => panic!("unexpected {:?}", other),
    };
    assert_eq!(ids(&events), vec!["$4", "$3", "$2", "$1"]);
    let (again, used_again) = begin(events.clone(), "t0").replay(recorded());
    assert_eq!(again, Progress::Done(events));
    assert_eq!(used_again, 3);
}

#[test]
fn replay_that_runs_out_of_answers_asks_for_more() {
    let (progress, used) = begin(vec![], "t0").replay(vec![Ok(page(
        vec![message("$1", "a")],
        "t0",
        "t1",
    ))]);
    assert_eq!(used, 1);
    match progress {
        Progress::More(state) => {
            assert_eq!(state.request().from, "t1");
            assert_eq!(ids(state.events()), vec!["$1"]);
        },
        other => panic!("unexpected {:?}", other),
    }
    let (nothing, none) = begin(vec![message("$1", "a")], "t0").replay(vec![]);
    assert_eq!(none, 0);
    assert!(matches!(nothing, Progress::More(_)));
}

#[test]
fn replay_stops_at_a_failure() {
    let (progress, used) = begin(vec![message("$9", "z")], "t0").replay(vec![
        Ok(page(vec![message("$1", "a")], "t0", "t1")),
        Err(FetchError::Transport("down".to_string())),
        Ok(page(vec![], "t1", "t2")),
    ]);
    assert_eq!(used, 2);
    assert_eq!(
        progress,
        Progress::Failed(ReconstructionError {
            room_id: "!room:example.org".to_string(),
            cause: FetchError::Transport("down".to_string()),
        })
    );
}

#[test]
fn cursor_operations_replace_tokens_verbatim() {
    let mut cursor = SyncCursor::new("s1".to_string(), "h1".to_string());
    assert_eq!(cursor.next_batch(), "s1");
    assert_eq!(cursor.page(), "h1");
    cursor.advance_live("s2".to_string());
    assert_eq!(cursor.next_batch(), "s2");
    assert_eq!(cursor.page(), "h1");
    assert!(cursor.advance_page("h2".to_string()));
    assert_eq!(cursor.page(), "h2");
    assert_eq!(cursor.next_batch(), "s2");
    assert!(!cursor.advance_page("h2".to_string()));
    assert_eq!(cursor.page(), "h2");
    assert_eq!(cursor.clone(), cursor);
}
