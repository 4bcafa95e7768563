//! Rebuilding a room's history: the live segment first, then page after page,
//! each event once.
//!
//! Fetching is not done here. A [`Reconstructor`] says what to ask for, is
//! told what came back, and says whether to go on.

use vstd::prelude::*;
use crate::cursor::{SyncCursor, SyncCursorView};
use crate::error::{FetchError, FetchErrorView, ReconstructionError, ReconstructionErrorView};
use crate::event::{views, Event, EventView};
use crate::page::{Direction, Page, PageView};

verus! {

/// Whether one of `events` has the identifier `id`.
pub open spec fn has_id(events: Seq<EventView>, id: Seq<char>) -> bool {
    exists|i: int| 0 <= i < events.len() && #[trigger] events[i].id() == Some(id)
}

/// Whether `event` repeats one of `seen`: it has an identifier, and one of
/// `seen` has the same. An event without identifier repeats nothing.
pub open spec fn repeats(seen: Seq<EventView>, event: EventView) -> bool {
    match event.id() {
        Some(id) => has_id(seen, id),
        None => false,
    }
}

/// `seen`, with `event` added at the end unless it repeats one of `seen`.
pub open spec fn keep(seen: Seq<EventView>, event: EventView) -> Seq<EventView> {
    if repeats(seen, event) {
        seen
    } else {
        seen.push(event)
    }
}

/// `seen`, followed by those of `arrivals` that repeat nothing before them,
/// in the order of arrival.
pub open spec fn merge(seen: Seq<EventView>, arrivals: Seq<EventView>) -> Seq<EventView>
    decreases arrivals.len(),
{
    if arrivals.len() == 0 {
        seen
    } else {
        keep(merge(seen, arrivals.drop_last()), arrivals.last())
    }
}

/// `events` without repetitions: of the events that share an identifier the
/// first stays, and the order of those that stay is kept.
pub open spec fn dedup(events: Seq<EventView>) -> Seq<EventView> {
    merge(Seq::empty(), events)
}

/// No identifier occurs twice in `events`.
pub open spec fn unique_ids(events: Seq<EventView>) -> bool {
    forall|i: int, j: int|
        0 <= i < j < events.len() && (#[trigger] events[i].id()) is Some ==> events[i].id() != (
        #[trigger] events[j].id())
}

/// What to ask the server for next.
#[derive(Debug, PartialEq, Eq)]
pub struct FetchRequest {
    pub room_id: String,
    pub from: String,
    pub direction: Direction,
}

/// The value of a [`FetchRequest`].
pub ghost struct FetchRequestView {
    pub room_id: Seq<char>,
    pub from: Seq<char>,
    pub direction: Direction,
}

impl View for FetchRequest {
    type V = FetchRequestView;

    open spec fn view(&self) -> FetchRequestView {
        FetchRequestView { room_id: self.room_id@, from: self.from@, direction: self.direction }
    }
}

/// A reconstruction under way: the room, the way its history is walked, the
/// tokens, and the events gathered so far, each once.
#[derive(Debug, PartialEq, Eq)]
pub struct Reconstructor {
    room_id: String,
    direction: Direction,
    cursor: SyncCursor,
    events: Vec<Event>,
}

/// The value of a [`Reconstructor`].
pub ghost struct ReconstructorView {
    pub room_id: Seq<char>,
    pub direction: Direction,
    pub cursor: SyncCursorView,
    pub events: Seq<EventView>,
}

/// How a reconstruction stands after an answer.
#[derive(Debug, PartialEq, Eq)]
pub enum Progress {
    /// Another page is to be fetched.
    More(Reconstructor),
    /// The history is complete: the events, each once, in arrival order.
    Done(Vec<Event>),
    /// A fetch failed; what had been gathered is dropped.
    Failed(ReconstructionError),
}

/// The value of a [`Progress`].
pub ghost enum ProgressView {
    More(ReconstructorView),
    Done(Seq<EventView>),
    Failed(ReconstructionErrorView),
}

/// The value of the outcome of a fetch.
pub open spec fn outcome_view(outcome: Result<Page, FetchError>) -> Result<
    PageView,
    FetchErrorView,
> {
    match outcome {
        Ok(page) => Ok(page@),
        Err(cause) => Err(cause@),
    }
}

/// The state that a reconstruction starts in: the live segment without
/// repetitions, and the tokens as given.
pub open spec fn start(
    room_id: Seq<char>,
    seed: Seq<EventView>,
    cursor: SyncCursorView,
    direction: Direction,
) -> ReconstructorView {
    ReconstructorView { room_id, direction, cursor, events: dedup(seed) }
}

/// One step of a reconstruction.
///
/// A failed fetch ends it with an error that names the room and the cause.
/// An empty page ends it with what was gathered. Any other page is merged
/// into what was gathered; if its end token is the token it was asked from,
/// the server has not moved on and that ends it too; else the end token
/// becomes the token to ask from, and another page is due.
pub open spec fn step(state: ReconstructorView, outcome: Result<PageView, FetchErrorView>) -> ProgressView {
    match outcome {
        Err(cause) => ProgressView::Failed(
            ReconstructionErrorView { room_id: state.room_id, cause },
        ),
        Ok(page) => if page.events.len() == 0 {
            ProgressView::Done(state.events)
        } else if page.end == state.cursor.page {
            ProgressView::Done(merge(state.events, page.events))
        } else {
            ProgressView::More(
                ReconstructorView {
                    room_id: state.room_id,
                    direction: state.direction,
                    cursor: SyncCursorView { next_batch: state.cursor.next_batch, page: page.end },
                    events: merge(state.events, page.events),
                },
            )
        },
    }
}

/// The values of a list of outcomes.
pub open spec fn outcome_views(outcomes: Seq<Result<Page, FetchError>>) -> Seq<
    Result<PageView, FetchErrorView>,
> {
    Seq::new(outcomes.len(), |i: int| outcome_view(outcomes[i]))
}

/// Where a reconstruction stands after it was given `outcomes` one by one,
/// for as long as it asked for more. Outcomes after its end are not looked at.
pub open spec fn run(
    state: ReconstructorView,
    outcomes: Seq<Result<PageView, FetchErrorView>>,
) -> ProgressView
    decreases outcomes.len(),
{
    if outcomes.len() == 0 {
        ProgressView::More(state)
    } else {
        match step(state, outcomes[0]) {
            ProgressView::More(next) => run(next, outcomes.drop_first()),
            end => end,
        }
    }
}

/// How many of `outcomes` a reconstruction takes before it ends or they
/// run out: the number of fetches it makes against a server that answers
/// with `outcomes`.
pub open spec fn fetches(
    state: ReconstructorView,
    outcomes: Seq<Result<PageView, FetchErrorView>>,
) -> nat
    decreases outcomes.len(),
{
    if outcomes.len() == 0 {
        0
    } else {
        match step(state, outcomes[0]) {
            ProgressView::More(next) => 1 + fetches(next, outcomes.drop_first()),
            _ => 1,
        }
    }
}

impl ReconstructorView {
    /// The request for the next page: this room, from the page token, along
    /// the direction of the reconstruction.
    pub open spec fn request(self) -> FetchRequestView {
        FetchRequestView { room_id: self.room_id, from: self.cursor.page, direction: self.direction }
    }
}

/// Merging keeps identifiers unique.
pub proof fn lemma_merge_unique(seen: Seq<EventView>, arrivals: Seq<EventView>)
    requires
        unique_ids(seen),
    ensures
        unique_ids(merge(seen, arrivals)),
    decreases arrivals.len(),
{
    if arrivals.len() > 0 {
        lemma_merge_unique(seen, arrivals.drop_last());
    }
}

/// Whether one of `events` has the identifier `id`.
fn contains_id(events: &Vec<Event>, id: &String) -> (found: bool)
    ensures
        found == has_id(views(events@), id@),
{
    let mut i: usize = 0;
    while i < events.len()
        invariant
            0 <= i <= events.len(),
            forall|k: int| 0 <= k < i ==> (#[trigger] views(events@)[k]).id() != Some(id@),
        decreases events.len() - i,
    {
        match events[i].event_id() {
            Some(other) => {
                if *other == *id {
                    assert(views(events@)[i as int].id() == Some(id@));
                    return true;
                }
            },
            None => {},
        }
        i += 1;
    }
    false
}

/// Adds to `seen` those of `arrivals` that repeat nothing before them.
fn absorb(seen: Vec<Event>, arrivals: &Vec<Event>) -> (all: Vec<Event>)
    ensures
        views(all@) == merge(views(seen@), views(arrivals@)),
{
    let ghost before = views(seen@);
    let ghost coming = views(arrivals@);
    let mut all = seen;
    let mut i: usize = 0;
    while i < arrivals.len()
        invariant
            0 <= i <= arrivals.len(),
            coming == views(arrivals@),
            views(all@) == merge(before, coming.subrange(0, i as int)),
        decreases arrivals.len() - i,
    {
        let ghost so_far = views(all@);
        assert(coming.subrange(0, i + 1).drop_last() =~= coming.subrange(0, i as int));
        assert(coming.subrange(0, i + 1).last() == arrivals[i as int]@);
        let repeated = match arrivals[i].event_id() {
            Some(id) => contains_id(&all, id),
            None => false,
        };
        if !repeated {
            all.push(arrivals[i].clone());
            assert(views(all@) =~= so_far.push(arrivals[i as int]@));
        }
        i += 1;
    }
    assert(coming.subrange(0, arrivals.len() as int) =~= coming);
    all
}

impl View for Reconstructor {
    type V = ReconstructorView;

    closed spec fn view(&self) -> ReconstructorView {
        ReconstructorView {
            room_id: self.room_id@,
            direction: self.direction,
            cursor: self.cursor@,
            events: views(self.events@),
        }
    }
}

impl View for Progress {
    type V = ProgressView;

    open spec fn view(&self) -> ProgressView {
        match *self {
            Progress::More(state) => ProgressView::More(state@),
            Progress::Done(events) => ProgressView::Done(views(events@)),
            Progress::Failed(error) => ProgressView::Failed(error@),
        }
    }
}

impl Reconstructor {
    /// What holds of every reconstruction: no identifier was gathered twice.
    #[verifier::type_invariant]
    spec fn unique(self) -> bool {
        unique_ids(views(self.events@))
    }

    /// Starts the reconstruction of a room's history from its live segment,
    /// whose events are gathered in their order, each once.
    pub fn begin(room_id: String, seed: Vec<Event>, cursor: SyncCursor, direction: Direction) -> (state:
        Reconstructor)
        ensures
            state@ == start(room_id@, views(seed@), cursor@, direction),
            unique_ids(state@.events),
    {
        let events = absorb(Vec::new(), &seed);
        proof {
            assert(views(Seq::<Event>::empty()) =~= Seq::<EventView>::empty());
            lemma_merge_unique(Seq::empty(), views(seed@));
        }
        Reconstructor { room_id, direction, cursor, events }
    }

    /// The request for the next page.
    pub fn request(&self) -> (request: FetchRequest)
        ensures
            request@ == self@.request(),
    {
        FetchRequest {
            room_id: self.room_id.clone(),
            from: self.cursor.page().clone(),
            direction: self.direction,
        }
    }

    /// Takes the outcome of the fetch that [`Reconstructor::request`] asked
    /// for, and says how the reconstruction stands.
    pub fn on_page(self, outcome: Result<Page, FetchError>) -> (next: Progress)
        ensures
            next@ == step(self@, outcome_view(outcome)),
            match next {
                Progress::More(state) => unique_ids(state@.events),
                Progress::Done(events) => unique_ids(views(events@)),
                Progress::Failed(_) => true,
            },
    {
        proof {
            use_type_invariant(&self);
        }
        let Reconstructor { room_id, direction, cursor, events } = self;
        match outcome {
            Err(cause) => Progress::Failed(ReconstructionError { room_id, cause }),
            Ok(page) => {
                if page.events.len() == 0 {
                    return Progress::Done(events);
                }
                proof {
                    lemma_merge_unique(views(events@), views(page.events@));
                }
                let events = absorb(events, &page.events);
                let mut cursor = cursor;
                let moved = cursor.advance_page(page.end);
                if moved {
                    Progress::More(Reconstructor { room_id, direction, cursor, events })
                } else {
                    Progress::Done(events)
                }
            },
        }
    }

    /// Runs the reconstruction against recorded answers, in place of a
    /// server: each is taken as the outcome of the next fetch, until the
    /// reconstruction ends or the answers run out. Returns where it stands
    /// then (`More` if it would ask again), and how many answers it took.
    pub fn replay(self, outcomes: Vec<Result<Page, FetchError>>) -> (end: (Progress, usize))
        ensures
            end.0@ == run(self@, outcome_views(outcomes@)),
            end.1 == fetches(self@, outcome_views(outcomes@)),
    {
        let ghost first = self@;
        let ghost all = outcome_views(outcomes@);
        let mut state = self;
        let mut rest = outcomes;
        let mut used: usize = 0;
        while rest.len() > 0
            invariant
                first == self@,
                all == outcome_views(outcomes@),
                used + rest.len() == outcomes.len(),
                run(first, all) == run(state@, outcome_views(rest@)),
                fetches(first, all) == used + fetches(state@, outcome_views(rest@)),
            decreases rest.len(),
        {
            let ghost before = outcome_views(rest@);
            let outcome = rest.remove(0);
            assert(outcome_views(rest@) =~= before.drop_first());
            assert(before[0] == outcome_view(outcome));
            used += 1;
            match state.on_page(outcome) {
                Progress::More(next) => {
                    state = next;
                },
                Progress::Done(events) => {
                    return (Progress::Done(events), used);
                },
                Progress::Failed(error) => {
                    return (Progress::Failed(error), used);
                },
            }
        }
        (Progress::More(state), used)
    }

    /// The events gathered so far.
    pub fn events(&self) -> (events: &Vec<Event>)
        ensures
            views(events@) == self@.events,
            unique_ids(self@.events),
    {
        proof {
            use_type_invariant(self);
        }
        &self.events
    }
}

} // verus!
