//! The label under which a room is shown.

use vstd::prelude::*;
use crate::error::{LookupError, LookupErrorView};
use crate::event::{views, Event, EventView};

verus! {

/// The name set by the last naming event of `events`, if there is one.
pub open spec fn last_name(events: Seq<EventView>) -> Option<Seq<char>>
    decreases events.len(),
{
    if events.len() == 0 {
        None
    } else {
        match events.last() {
            EventView::RoomName { name, .. } => Some(name),
            _ => last_name(events.drop_last()),
        }
    }
}

/// What the state events of a room say of its name.
#[derive(Debug, PartialEq, Eq)]
pub enum NameQuery {
    /// The state events name the room.
    Resolved(String),
    /// They do not: the name of this room is to be looked up, once.
    Lookup(String),
}

/// The value of a [`NameQuery`].
pub ghost enum NameQueryView {
    Resolved(Seq<char>),
    Lookup(Seq<char>),
}

impl View for NameQuery {
    type V = NameQueryView;

    open spec fn view(&self) -> NameQueryView {
        match *self {
            NameQuery::Resolved(name) => NameQueryView::Resolved(name@),
            NameQuery::Lookup(room_id) => NameQueryView::Lookup(room_id@),
        }
    }
}

/// What the state events of room `room_id` say of its name: the name that
/// the last naming event sets, or that it is to be looked up.
pub open spec fn resolve_spec(room_id: Seq<char>, events: Seq<EventView>) -> NameQueryView {
    match last_name(events) {
        Some(name) => NameQueryView::Resolved(name),
        None => NameQueryView::Lookup(room_id),
    }
}

/// The value of the outcome of a name lookup.
pub open spec fn lookup_view(outcome: Result<Option<String>, LookupError>) -> Result<
    Option<Seq<char>>,
    LookupErrorView,
> {
    match outcome {
        Ok(Some(name)) => Ok(Some(name@)),
        Ok(None) => Ok(None),
        Err(error) => Err(error@),
    }
}

/// The label after a lookup: the name that was found, and `"unnamed"` where
/// the lookup found none or failed.
pub open spec fn looked_up(outcome: Result<Option<Seq<char>>, LookupErrorView>) -> Seq<char> {
    match outcome {
        Ok(Some(name)) => name,
        _ => "unnamed"@,
    }
}

/// Looks for the room's name in its state events. The most recent naming
/// event decides; without one, the answer is the request to look the name
/// up.
pub fn resolve(room_id: &str, state_events: &Vec<Event>) -> (query: NameQuery)
    ensures
        query@ == resolve_spec(room_id@, views(state_events@)),
{
    let ghost all = views(state_events@);
    let mut i: usize = state_events.len();
    assert(all.subrange(0, i as int) =~= all);
    while i > 0
        invariant
            0 <= i <= state_events.len(),
            all == views(state_events@),
            last_name(all) == last_name(all.subrange(0, i as int)),
        decreases i,
    {
        let ghost front = all.subrange(0, i as int);
        assert(front.drop_last() =~= all.subrange(0, i - 1));
        assert(front.last() == state_events[i - 1]@);
        i -= 1;
        match &state_events[i] {
            Event::RoomName { name, .. } => {
                return NameQuery::Resolved(name.clone());
            },
            _ => {},
        }
    }
    NameQuery::Lookup(room_id.to_owned())
}

/// The room's label after the lookup that [`resolve`] asked for.
pub fn resolve_lookup(outcome: Result<Option<String>, LookupError>) -> (name: String)
    ensures
        name@ == looked_up(lookup_view(outcome)),
{
    match outcome {
        Ok(Some(name)) => name,
        _ => "unnamed".to_owned(),
    }
}

/// State events without a naming event never name the room: the answer is
/// the request for one lookup, for this room.
pub proof fn lemma_unnamed_state(room_id: Seq<char>, events: Seq<EventView>)
    requires
        forall|i: int| 0 <= i < events.len() ==> !(#[trigger] events[i] is RoomName),
    ensures
        resolve_spec(room_id, events) == NameQueryView::Lookup(room_id),
    decreases events.len(),
{
    if events.len() > 0 {
        let front = events.drop_last();
        assert forall|i: int| 0 <= i < front.len() implies !(#[trigger] front[i] is RoomName) by {
            assert(front[i] == events[i]);
        }
        lemma_unnamed_state(room_id, front);
        assert(!(events[events.len() - 1] is RoomName));
    }
}

/// A naming event among the state events names the room: the answer is a
/// name, that of the last naming event, and nothing is looked up.
pub proof fn lemma_named_state(room_id: Seq<char>, events: Seq<EventView>, i: int)
    requires
        0 <= i < events.len(),
        events[i] is RoomName,
        forall|j: int| i < j < events.len() ==> !(#[trigger] events[j] is RoomName),
    ensures
        resolve_spec(room_id, events) == NameQueryView::Resolved(events[i]->RoomName_name),
    decreases events.len(),
{
    if i < events.len() - 1 {
        let front = events.drop_last();
        assert(!(events[events.len() - 1] is RoomName));
        assert(front[i] == events[i]);
        assert forall|j: int| i < j < front.len() implies !(#[trigger] front[j] is RoomName) by {
            assert(front[j] == events[j]);
        }
        lemma_named_state(room_id, front, i);
    }
}

/// After a lookup the label is `"unnamed"` exactly where the lookup gave no
/// name; a name that was found is the label.
pub proof fn lemma_unnamed_without_name(outcome: Result<Option<Seq<char>>, LookupErrorView>)
    ensures
        !(outcome is Ok && outcome->Ok_0 is Some) ==> looked_up(outcome) == "unnamed"@,
        outcome is Ok && outcome->Ok_0 is Some ==> looked_up(outcome) == outcome->Ok_0->Some_0,
{
}

/// Where the lookup was answered, with a name other than `"unnamed"` or with
/// the report that there is none, the label is `"unnamed"` only for that
/// report.
pub proof fn lemma_unnamed_only_when_not_found(outcome: Result<Option<Seq<char>>, LookupErrorView>)
    requires
        !(outcome is Err && outcome->Err_0 is Transport),
        outcome != Ok::<Option<Seq<char>>, LookupErrorView>(None),
        outcome != Ok::<Option<Seq<char>>, LookupErrorView>(Some("unnamed"@)),
    ensures
        looked_up(outcome) == "unnamed"@ <==> outcome == Err::<Option<Seq<char>>, LookupErrorView>(
            LookupErrorView::NotFound,
        ),
{
}

} // verus!
