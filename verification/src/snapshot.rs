//! What one synchronisation says of one room.

use vstd::prelude::*;
use crate::cursor::{SyncCursor, SyncCursorView};
use crate::error::{DecodeError, DecodeErrorView};
use crate::event::{copy_all, parse_all, parse_all_spec, views, Event, EventView};
use crate::history::{start, Reconstructor};
use crate::json::{Json, JsonValue};
use crate::name::{resolve, resolve_spec, NameQuery};
use crate::page::Direction;

verus! {

/// A room as one synchronisation shows it: its current state events, the
/// newest stretch of its timeline (oldest first), whether the server left
/// out events before that stretch, and the token from which the events
/// before it can be fetched.
#[derive(Debug, PartialEq, Eq)]
pub struct RoomSnapshot {
    pub state: Vec<Event>,
    pub timeline: Vec<Event>,
    pub limited: bool,
    pub prev_batch: String,
}

/// The value of a [`RoomSnapshot`].
pub ghost struct RoomSnapshotView {
    pub state: Seq<EventView>,
    pub timeline: Seq<EventView>,
    pub limited: bool,
    pub prev_batch: Seq<char>,
}

impl View for RoomSnapshot {
    type V = RoomSnapshotView;

    open spec fn view(&self) -> RoomSnapshotView {
        RoomSnapshotView {
            state: views(self.state@),
            timeline: views(self.timeline@),
            limited: self.limited,
            prev_batch: self.prev_batch@,
        }
    }
}

/// The array `events` of the member `section`, if both are there.
pub open spec fn section_events(raw: JsonValue, section: Seq<char>) -> Option<Seq<JsonValue>> {
    match raw.field(section) {
        Some(inner) => match inner.field("events"@) {
            Some(JsonValue::Array(items)) => Some(items),
            _ => None,
        },
        None => None,
    }
}

/// The boolean `limited` of the member `timeline`.
pub open spec fn timeline_limited(raw: JsonValue) -> Option<bool> {
    match raw.field("timeline"@) {
        Some(inner) => match inner.field("limited"@) {
            Some(JsonValue::Bool(b)) => Some(b),
            _ => None,
        },
        None => None,
    }
}

/// The string `prev_batch` of the member `timeline`.
pub open spec fn timeline_prev_batch(raw: JsonValue) -> Option<Seq<char>> {
    match raw.field("timeline"@) {
        Some(inner) => inner.text_field("prev_batch"@),
        None => None,
    }
}

/// The snapshot that a document stands for. It must hold the arrays
/// `state.events` and `timeline.events`, the boolean `timeline.limited` and
/// the string `timeline.prev_batch`; the error names the first of these, in
/// this order, that is missing or has another type.
pub open spec fn snapshot_of(raw: JsonValue) -> Result<RoomSnapshotView, DecodeErrorView> {
    match section_events(raw, "state"@) {
        None => Err(DecodeErrorView::Schema("state.events"@)),
        Some(state) => match section_events(raw, "timeline"@) {
            None => Err(DecodeErrorView::Schema("timeline.events"@)),
            Some(timeline) => match timeline_limited(raw) {
                None => Err(DecodeErrorView::Schema("timeline.limited"@)),
                Some(limited) => match timeline_prev_batch(raw) {
                    None => Err(DecodeErrorView::Schema("timeline.prev_batch"@)),
                    Some(prev_batch) => Ok(
                        RoomSnapshotView {
                            state: parse_all_spec(state),
                            timeline: parse_all_spec(timeline),
                            limited,
                            prev_batch,
                        },
                    ),
                },
            },
        },
    }
}

/// The value of the outcome of reading a snapshot.
pub open spec fn snapshot_view(decoded: Result<RoomSnapshot, DecodeError>) -> Result<
    RoomSnapshotView,
    DecodeErrorView,
> {
    match decoded {
        Ok(snapshot) => Ok(snapshot@),
        Err(error) => Err(error@),
    }
}

/// The events of the array `events` of the member `section`.
fn parse_section(raw: &Json, section: &str) -> (events: Option<Vec<Event>>)
    ensures
        match events {
            Some(list) => section_events(raw@, section@) is Some && views(list@) == parse_all_spec(
                section_events(raw@, section@).unwrap(),
            ),
            None => section_events(raw@, section@) is None,
        },
{
    match raw.get(section) {
        Some(inner) => match inner.get("events") {
            Some(list) => match list.as_array() {
                Some(items) => Some(parse_all(items)),
                None => None,
            },
            None => None,
        },
        None => None,
    }
}

impl RoomSnapshot {
    /// Reads a room's snapshot from its document in a synchronisation.
    pub fn parse(raw: &Json) -> (decoded: Result<RoomSnapshot, DecodeError>)
        ensures
            snapshot_view(decoded) == snapshot_of(raw@),
    {
        let state = match parse_section(raw, "state") {
            Some(events) => events,
            None => {
                return Err(DecodeError::Schema("state.events".to_owned()));
            },
        };
        let timeline = match parse_section(raw, "timeline") {
            Some(events) => events,
            None => {
                return Err(DecodeError::Schema("timeline.events".to_owned()));
            },
        };
        let section = match raw.get("timeline") {
            Some(inner) => inner,
            None => {
                return Err(DecodeError::Schema("timeline.limited".to_owned()));
            },
        };
        let limited = match section.get("limited") {
            Some(Json::Bool(b)) => *b,
            _ => {
                return Err(DecodeError::Schema("timeline.limited".to_owned()));
            },
        };
        let prev_batch = match section.text_field("prev_batch") {
            Some(token) => token,
            None => {
                return Err(DecodeError::Schema("timeline.prev_batch".to_owned()));
            },
        };
        Ok(RoomSnapshot { state, timeline, limited, prev_batch })
    }

    /// Whether the server left out events between the synchronisation
    /// before and this timeline: if so, the timeline alone has a gap, which
    /// only a reconstruction fills.
    pub fn is_limited(&self) -> (limited: bool)
        ensures
            limited == self@.limited,
    {
        self.limited
    }

    /// What the state events say of the room's name.
    pub fn name_query(&self, room_id: &str) -> (query: NameQuery)
        ensures
            query@ == resolve_spec(room_id@, self@.state),
    {
        resolve(room_id, &self.state)
    }

    /// Starts the reconstruction of the room's history: from this timeline,
    /// asking for pages from `prev_batch`, and keeping `next_batch` as the
    /// token of the synchronisation.
    pub fn reconstructor(&self, room_id: String, next_batch: String, direction: Direction) -> (state:
        Reconstructor)
        ensures
            state@ == start(
                room_id@,
                self@.timeline,
                SyncCursorView { next_batch: next_batch@, page: self@.prev_batch },
                direction,
            ),
    {
        let cursor = SyncCursor::new(next_batch, self.prev_batch.clone());
        Reconstructor::begin(room_id, copy_all(&self.timeline), cursor, direction)
    }
}

} // verus!
