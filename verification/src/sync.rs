//! The answer to one synchronisation: the token to resume from, and the rooms.

use vstd::prelude::*;
use crate::error::{DecodeError, DecodeErrorView};
use crate::json::{members_of, Json, JsonValue};
use crate::snapshot::{snapshot_of, RoomSnapshot, RoomSnapshotView};

verus! {

/// The rooms of one synchronisation, each with its identifier, in the order
/// of the document.
#[derive(Debug, PartialEq, Eq)]
pub struct SyncResponse {
    pub next_batch: String,
    pub invite: Vec<(String, RoomSnapshot)>,
    pub join: Vec<(String, RoomSnapshot)>,
    pub leave: Vec<(String, RoomSnapshot)>,
}

/// The value of a [`SyncResponse`].
pub ghost struct SyncResponseView {
    pub next_batch: Seq<char>,
    pub invite: Seq<(Seq<char>, RoomSnapshotView)>,
    pub join: Seq<(Seq<char>, RoomSnapshotView)>,
    pub leave: Seq<(Seq<char>, RoomSnapshotView)>,
}

/// The values of a list of rooms.
pub open spec fn room_views(rooms: Seq<(String, RoomSnapshot)>) -> Seq<(Seq<char>, RoomSnapshotView)> {
    Seq::new(rooms.len(), |i: int| (rooms[i].0@, rooms[i].1@))
}

impl View for SyncResponse {
    type V = SyncResponseView;

    open spec fn view(&self) -> SyncResponseView {
        SyncResponseView {
            next_batch: self.next_batch@,
            invite: room_views(self.invite@),
            join: room_views(self.join@),
            leave: room_views(self.leave@),
        }
    }
}

/// The rooms that the members of an object stand for, each read as a
/// snapshot. The first member that is no snapshot makes the whole fail,
/// with that member's error.
pub open spec fn rooms_of(members: Seq<(Seq<char>, JsonValue)>) -> Result<
    Seq<(Seq<char>, RoomSnapshotView)>,
    DecodeErrorView,
>
    decreases members.len(),
{
    if members.len() == 0 {
        Ok(Seq::empty())
    } else {
        match rooms_of(members.drop_last()) {
            Err(error) => Err(error),
            Ok(rooms) => match snapshot_of(members.last().1) {
                Err(error) => Err(error),
                Ok(room) => Ok(rooms.push((members.last().0, room))),
            },
        }
    }
}

/// The rooms under the member `kind` of the member `rooms`. The error names
/// the member where it is no object.
pub open spec fn room_group(raw: JsonValue, kind: Seq<char>) -> Result<
    Seq<(Seq<char>, RoomSnapshotView)>,
    DecodeErrorView,
> {
    match raw.field("rooms"@) {
        Some(rooms) => match rooms.field(kind) {
            Some(JsonValue::Object(members)) => rooms_of(members),
            _ => Err(DecodeErrorView::Schema("rooms."@ + kind)),
        },
        None => Err(DecodeErrorView::Schema("rooms."@ + kind)),
    }
}

/// The synchronisation that a document stands for: the string `next_batch`,
/// then the objects `invite`, `join` and `leave` of the member `rooms`, whose
/// members are the rooms by their identifiers. The error is that of the
/// first of these, in this order, that cannot be read.
pub open spec fn sync_of(raw: JsonValue) -> Result<SyncResponseView, DecodeErrorView> {
    match raw.text_field("next_batch"@) {
        None => Err(DecodeErrorView::Schema("next_batch"@)),
        Some(next_batch) => match room_group(raw, "invite"@) {
            Err(error) => Err(error),
            Ok(invite) => match room_group(raw, "join"@) {
                Err(error) => Err(error),
                Ok(join) => match room_group(raw, "leave"@) {
                    Err(error) => Err(error),
                    Ok(leave) => Ok(SyncResponseView { next_batch, invite, join, leave }),
                },
            },
        },
    }
}

/// The value of the outcome of reading a group of rooms.
pub open spec fn group_view(decoded: Result<Vec<(String, RoomSnapshot)>, DecodeError>) -> Result<
    Seq<(Seq<char>, RoomSnapshotView)>,
    DecodeErrorView,
> {
    match decoded {
        Ok(rooms) => Ok(room_views(rooms@)),
        Err(error) => Err(error@),
    }
}

/// The value of the outcome of reading a synchronisation.
pub open spec fn sync_view(decoded: Result<SyncResponse, DecodeError>) -> Result<
    SyncResponseView,
    DecodeErrorView,
> {
    match decoded {
        Ok(sync) => Ok(sync@),
        Err(error) => Err(error@),
    }
}

/// Reads each member of an object as a room.
fn parse_rooms(members: &Vec<(String, Json)>) -> (decoded: Result<
    Vec<(String, RoomSnapshot)>,
    DecodeError,
>)
    ensures
        group_view(decoded) == rooms_of(members_of(members@)),
{
    let ghost all = members_of(members@);
    let mut rooms: Vec<(String, RoomSnapshot)> = Vec::new();
    let mut i: usize = 0;
    assert(all.subrange(0, 0) =~= Seq::empty());
    assert(room_views(rooms@) =~= Seq::empty());
    while i < members.len()
        invariant
            0 <= i <= members.len(),
            all == members_of(members@),
            rooms_of(all.subrange(0, i as int)) == Ok::<
                Seq<(Seq<char>, RoomSnapshotView)>,
                DecodeErrorView,
            >(room_views(rooms@)),
        decreases members.len() - i,
    {
        let ghost so_far = room_views(rooms@);
        let ghost upto = all.subrange(0, i + 1);
        assert(upto.drop_last() =~= all.subrange(0, i as int));
        assert(upto.last() == (members[i as int].0@, members[i as int].1@));
        match RoomSnapshot::parse(&members[i].1) {
            Ok(room) => {
                rooms.push((members[i].0.clone(), room));
                assert(room_views(rooms@) =~= so_far.push((members[i as int].0@, room@)));
            },
            Err(error) => {
                proof {
                    lemma_rooms_fail(all, i + 1);
                }
                return Err(error);
            },
        }
        i += 1;
    }
    assert(all.subrange(0, members.len() as int) =~= all);
    Ok(rooms)
}

/// Once a beginning of the members fails, the whole fails in the same way.
proof fn lemma_rooms_fail(members: Seq<(Seq<char>, JsonValue)>, n: int)
    requires
        0 <= n <= members.len(),
        rooms_of(members.subrange(0, n)) is Err,
    ensures
        rooms_of(members) == rooms_of(members.subrange(0, n)),
    decreases members.len() - n,
{
    if n == members.len() {
        assert(members.subrange(0, n) =~= members);
    } else {
        assert(members.subrange(0, n + 1).drop_last() =~= members.subrange(0, n));
        lemma_rooms_fail(members, n + 1);
    }
}

/// Reads the rooms under the member `kind` of the member `rooms`.
fn parse_group(raw: &Json, kind: &str) -> (decoded: Result<Vec<(String, RoomSnapshot)>, DecodeError>)
    ensures
        group_view(decoded) == room_group(raw@, kind@),
{
    let members = match raw.get("rooms") {
        Some(rooms) => match rooms.get(kind) {
            Some(group) => group.as_object(),
            None => None,
        },
        None => None,
    };
    match members {
        Some(list) => parse_rooms(list),
        None => {
            let mut name = "rooms.".to_owned();
            vstd::string::StringExecFns::append(&mut name, kind);
            Err(DecodeError::Schema(name))
        },
    }
}

impl SyncResponse {
    /// Reads a synchronisation from the document of the server's answer.
    pub fn parse(raw: &Json) -> (decoded: Result<SyncResponse, DecodeError>)
        ensures
            sync_view(decoded) == sync_of(raw@),
    {
        let next_batch = match raw.text_field("next_batch") {
            Some(token) => token,
            None => {
                return Err(DecodeError::Schema("next_batch".to_owned()));
            },
        };
        let invite = match parse_group(raw, "invite") {
            Ok(rooms) => rooms,
            Err(error) => {
                return Err(error);
            },
        };
        let join = match parse_group(raw, "join") {
            Ok(rooms) => rooms,
            Err(error) => {
                return Err(error);
            },
        };
        let leave = match parse_group(raw, "leave") {
            Ok(rooms) => rooms,
            Err(error) => {
                return Err(error);
            },
        };
        Ok(SyncResponse { next_batch, invite, join, leave })
    }
}

} // verus!
