//! What holds of every reconstruction, whatever the server answers.

use vstd::prelude::*;
use crate::cursor::SyncCursorView;
use crate::error::{FetchErrorView, ReconstructionErrorView};
use crate::event::EventView;
use crate::history::{
    dedup, fetches, has_id, keep, merge, repeats, run, start, step, unique_ids, ProgressView,
    ReconstructorView,
};
use crate::page::{Direction, PageView};

verus! {

/// Merging two batches one after the other is merging them at once.
pub proof fn lemma_merge_concat(seen: Seq<EventView>, first: Seq<EventView>, second: Seq<EventView>)
    ensures
        merge(merge(seen, first), second) == merge(seen, first + second),
    decreases second.len(),
{
    if second.len() == 0 {
        assert(first + second =~= first);
    } else {
        lemma_merge_concat(seen, first, second.drop_last());
        assert((first + second).drop_last() =~= first + second.drop_last());
        assert((first + second).last() == second.last());
    }
}

/// Merging keeps what was there, at the front and in its order.
pub proof fn lemma_merge_prefix(seen: Seq<EventView>, arrivals: Seq<EventView>)
    ensures
        seen.len() <= merge(seen, arrivals).len(),
        merge(seen, arrivals).subrange(0, seen.len() as int) == seen,
    decreases arrivals.len(),
{
    if arrivals.len() == 0 {
        assert(seen.subrange(0, seen.len() as int) =~= seen);
    } else {
        let before = merge(seen, arrivals.drop_last());
        lemma_merge_prefix(seen, arrivals.drop_last());
        assert(keep(before, arrivals.last()).subrange(0, seen.len() as int) =~= before.subrange(
            0,
            seen.len() as int,
        ));
    }
}

/// The identifiers after a merge are those that came in: it adds none and
/// loses none.
pub proof fn lemma_merge_ids(seen: Seq<EventView>, arrivals: Seq<EventView>, id: Seq<char>)
    ensures
        has_id(merge(seen, arrivals), id) <==> has_id(seen, id) || has_id(arrivals, id),
    decreases arrivals.len(),
{
    if arrivals.len() > 0 {
        let front = arrivals.drop_last();
        let last = arrivals.last();
        let before = merge(seen, front);
        let all = merge(seen, arrivals);
        lemma_merge_ids(seen, front, id);
        if has_id(arrivals, id) {
            let i = choose|i: int| 0 <= i < arrivals.len() && #[trigger] arrivals[i].id() == Some(id);
            if i < front.len() {
                assert(front[i].id() == Some(id));
            } else {
                assert(last.id() == Some(id));
                if !repeats(before, last) {
                    assert(all[before.len() as int].id() == Some(id));
                }
            }
        }
        if has_id(front, id) {
            let i = choose|i: int| 0 <= i < front.len() && #[trigger] front[i].id() == Some(id);
            assert(arrivals[i].id() == Some(id));
        }
        if has_id(before, id) {
            let i = choose|i: int| 0 <= i < before.len() && #[trigger] before[i].id() == Some(id);
            if !repeats(before, last) {
                assert(all[i].id() == Some(id));
            }
        }
        if has_id(all, id) {
            let i = choose|i: int| 0 <= i < all.len() && #[trigger] all[i].id() == Some(id);
            if i < before.len() {
                assert(before[i].id() == Some(id));
            } else {
                assert(arrivals[arrivals.len() - 1].id() == Some(id));
            }
        }
    }
}

/// Every event that came in is there after a merge: itself, or, where it
/// repeated an identifier, the event that had the identifier first.
pub proof fn lemma_merge_covers(seen: Seq<EventView>, arrivals: Seq<EventView>, i: int)
    requires
        0 <= i < arrivals.len(),
    ensures
        merge(seen, arrivals).contains(arrivals[i]) || repeats(merge(seen, arrivals), arrivals[i]),
    decreases arrivals.len(),
{
    let front = arrivals.drop_last();
    let before = merge(seen, front);
    let all = merge(seen, arrivals);
    let event = arrivals[i];
    if i < front.len() {
        lemma_merge_covers(seen, front, i);
        assert(front[i] == event);
        if before.contains(event) {
            let k = choose|k: int| 0 <= k < before.len() && before[k] == event;
            if !repeats(before, arrivals.last()) {
                assert(all[k] == event);
            }
        } else {
            let id = event.id().unwrap();
            lemma_merge_ids(seen, front, id);
            lemma_merge_ids(seen, arrivals, id);
            assert(arrivals[i].id() == Some(id));
        }
    } else {
        if repeats(before, event) {
        } else {
            assert(all[before.len() as int] == event);
        }
    }
}

/// A sequence without repeated identifiers is left as it is.
pub proof fn lemma_dedup_unique(events: Seq<EventView>)
    requires
        unique_ids(events),
    ensures
        dedup(events) == events,
    decreases events.len(),
{
    if events.len() == 0 {
        assert(events =~= Seq::empty());
    } else {
        let front = events.drop_last();
        assert forall|i: int, j: int|
            0 <= i < j < front.len() && (#[trigger] front[i].id()) is Some implies front[i].id() != (
        #[trigger] front[j].id()) by {
            assert(events[i].id() != events[j].id());
        }
        lemma_dedup_unique(front);
        if repeats(front, events.last()) {
            let id = events.last().id().unwrap();
            let i = choose|i: int| 0 <= i < front.len() && #[trigger] front[i].id() == Some(id);
            assert(events[i].id() == events[events.len() - 1].id());
        }
        assert(front.push(events.last()) =~= events);
    }
}

/// Removing repetitions twice removes no more than once.
pub proof fn lemma_dedup_idempotent(events: Seq<EventView>)
    ensures
        unique_ids(dedup(events)),
        dedup(dedup(events)) == dedup(events),
{
    crate::history::lemma_merge_unique(Seq::empty(), events);
    lemma_dedup_unique(dedup(events));
}

/// A reconstruction starts in the same state from a live segment and from
/// that segment without its repetitions.
pub proof fn lemma_start_idempotent(
    room_id: Seq<char>,
    seed: Seq<EventView>,
    cursor: SyncCursorView,
    direction: Direction,
)
    ensures
        start(room_id, dedup(seed), cursor, direction) == start(room_id, seed, cursor, direction),
        unique_ids(start(room_id, seed, cursor, direction).events),
{
    lemma_dedup_idempotent(seed);
}

/// Arrivals whose identifiers are all known already change nothing.
pub proof fn lemma_merge_known(seen: Seq<EventView>, arrivals: Seq<EventView>)
    requires
        forall|i: int| 0 <= i < arrivals.len() ==> repeats(seen, #[trigger] arrivals[i]),
    ensures
        merge(seen, arrivals) == seen,
    decreases arrivals.len(),
{
    if arrivals.len() > 0 {
        let front = arrivals.drop_last();
        assert forall|i: int| 0 <= i < front.len() implies repeats(seen, #[trigger] front[i]) by {
            assert(front[i] == arrivals[i]);
        }
        lemma_merge_known(seen, front);
        assert(repeats(seen, arrivals[arrivals.len() - 1]));
    }
}

/// The token that fetch number `i` is asked from, counting from 0: the
/// starting token for the first, then the end token of the page before.
pub open spec fn token_before(
    state: ReconstructorView,
    outcomes: Seq<Result<PageView, FetchErrorView>>,
    i: int,
) -> Seq<char> {
    if i <= 0 {
        state.cursor.page
    } else {
        outcomes[i - 1]->Ok_0.end
    }
}

/// Each of the first `n` outcomes is a page that holds events and whose end
/// token differs from the token it was asked from.
pub open spec fn advancing(
    state: ReconstructorView,
    outcomes: Seq<Result<PageView, FetchErrorView>>,
    n: int,
) -> bool {
    forall|i: int|
        0 <= i < n ==> {
            &&& (#[trigger] outcomes[i]) is Ok
            &&& outcomes[i]->Ok_0.events.len() > 0
            &&& outcomes[i]->Ok_0.end != token_before(state, outcomes, i)
        }
}

/// The events of the first `n` pages, in the order of arrival.
pub open spec fn gathered(outcomes: Seq<Result<PageView, FetchErrorView>>, n: int) -> Seq<EventView>
    decreases n,
{
    if n <= 0 {
        Seq::empty()
    } else {
        gathered(outcomes, n - 1) + outcomes[n - 1]->Ok_0.events
    }
}

/// The state of a reconstruction that has taken `n` advancing pages.
pub open spec fn after(
    state: ReconstructorView,
    outcomes: Seq<Result<PageView, FetchErrorView>>,
    n: int,
) -> ReconstructorView {
    ReconstructorView {
        room_id: state.room_id,
        direction: state.direction,
        cursor: SyncCursorView {
            next_batch: state.cursor.next_batch,
            page: token_before(state, outcomes, n),
        },
        events: merge(state.events, gathered(outcomes, n)),
    }
}

/// A run goes through its first outcome and then through the rest.
proof fn lemma_run_unfold(state: ReconstructorView, outcomes: Seq<Result<PageView, FetchErrorView>>)
    requires
        outcomes.len() > 0,
    ensures
        run(state, outcomes) == match step(state, outcomes[0]) {
            ProgressView::More(next) => run(next, outcomes.drop_first()),
            end => end,
        },
        fetches(state, outcomes) == match step(state, outcomes[0]) {
            ProgressView::More(next) => 1 + fetches(next, outcomes.drop_first()),
            _ => 1,
        },
{
}

/// While the pages advance, every one of them is fetched and merged: after
/// `n` of them the reconstruction holds the starting events merged with all
/// their events, and asks from the last end token.
pub proof fn lemma_run_advancing(
    state: ReconstructorView,
    outcomes: Seq<Result<PageView, FetchErrorView>>,
    n: int,
)
    requires
        0 <= n <= outcomes.len(),
        advancing(state, outcomes, n),
    ensures
        run(state, outcomes) == run(
            after(state, outcomes, n),
            outcomes.subrange(n, outcomes.len() as int),
        ),
        fetches(state, outcomes) == n + fetches(
            after(state, outcomes, n),
            outcomes.subrange(n, outcomes.len() as int),
        ),
    decreases n,
{
    let len = outcomes.len() as int;
    if n == 0 {
        assert(outcomes.subrange(0, len) =~= outcomes);
        assert(gathered(outcomes, 0) =~= Seq::empty());
        assert(after(state, outcomes, 0).events == state.events);
        assert(after(state, outcomes, 0).cursor == state.cursor);
        assert(after(state, outcomes, 0) == state);
    } else {
        lemma_run_advancing(state, outcomes, n - 1);
        let mid = after(state, outcomes, n - 1);
        let rest = outcomes.subrange(n - 1, len);
        assert(rest[0] == outcomes[n - 1]);
        assert(rest.drop_first() =~= outcomes.subrange(n, len));
        let page = outcomes[n - 1]->Ok_0;
        assert(outcomes[n - 1] == Ok::<PageView, FetchErrorView>(page));
        lemma_merge_concat(state.events, gathered(outcomes, n - 1), page.events);
        assert(step(mid, rest[0]) == ProgressView::More(after(state, outcomes, n)));
        lemma_run_unfold(mid, rest);
    }
}

/// Every event of the first `n` pages is among the gathered events.
pub proof fn lemma_gathered_holds(
    outcomes: Seq<Result<PageView, FetchErrorView>>,
    n: int,
    i: int,
    j: int,
) -> (at: int)
    requires
        0 <= i < n,
        0 <= j < outcomes[i]->Ok_0.events.len(),
    ensures
        0 <= at < gathered(outcomes, n).len(),
        gathered(outcomes, n)[at] == outcomes[i]->Ok_0.events[j],
    decreases n,
{
    let before = gathered(outcomes, n - 1);
    if i == n - 1 {
        before.len() + j
    } else {
        lemma_gathered_holds(outcomes, n - 1, i, j)
    }
}

/// Whether `event` is accounted for in `events`: it is one of them, or it
/// has an identifier that one of them has.
pub open spec fn accounted(events: Seq<EventView>, event: EventView) -> bool {
    events.contains(event) || repeats(events, event)
}

/// A reconstruction ends at the first empty page. If the first `k - 1`
/// pages advance and page `k` is empty, it makes exactly `k` fetches, and
/// its result is the starting events merged with the events of the `k - 1`
/// pages before, in the order of arrival: every event of those pages is in
/// it, itself or as the event that had its identifier first.
pub proof fn lemma_exhaustion(
    state: ReconstructorView,
    outcomes: Seq<Result<PageView, FetchErrorView>>,
    k: int,
)
    requires
        1 <= k <= outcomes.len(),
        advancing(state, outcomes, k - 1),
        outcomes[k - 1] is Ok,
        outcomes[k - 1]->Ok_0.events.len() == 0,
    ensures
        run(state, outcomes) == ProgressView::Done(merge(state.events, gathered(outcomes, k - 1))),
        fetches(state, outcomes) == k,
        forall|i: int, j: int|
            0 <= i < k - 1 && 0 <= j < outcomes[i]->Ok_0.events.len() ==> accounted(
                merge(state.events, gathered(outcomes, k - 1)),
                #[trigger] outcomes[i]->Ok_0.events[j],
            ),
{
    lemma_run_advancing(state, outcomes, k - 1);
    let rest = outcomes.subrange(k - 1, outcomes.len() as int);
    assert(rest[0] == outcomes[k - 1]);
    lemma_run_unfold(after(state, outcomes, k - 1), rest);
    assert forall|i: int, j: int|
        0 <= i < k - 1 && 0 <= j < outcomes[i]->Ok_0.events.len() implies accounted(
        merge(state.events, gathered(outcomes, k - 1)),
        #[trigger] outcomes[i]->Ok_0.events[j],
    ) by {
        let at = lemma_gathered_holds(outcomes, k - 1, i, j);
        lemma_merge_covers(state.events, gathered(outcomes, k - 1), at);
    }
}

/// A reconstruction ends at the first page that does not move the token. If
/// the first `k - 1` pages advance and page `k` holds events but ends at
/// the token it was asked from, it makes exactly `k` fetches, and its result
/// holds the events of all `k` pages: that page is the last one merged.
pub proof fn lemma_no_progress(
    state: ReconstructorView,
    outcomes: Seq<Result<PageView, FetchErrorView>>,
    k: int,
)
    requires
        1 <= k <= outcomes.len(),
        advancing(state, outcomes, k - 1),
        outcomes[k - 1] is Ok,
        outcomes[k - 1]->Ok_0.events.len() > 0,
        outcomes[k - 1]->Ok_0.end == token_before(state, outcomes, k - 1),
    ensures
        run(state, outcomes) == ProgressView::Done(merge(state.events, gathered(outcomes, k))),
        fetches(state, outcomes) == k,
{
    lemma_run_advancing(state, outcomes, k - 1);
    let rest = outcomes.subrange(k - 1, outcomes.len() as int);
    assert(rest[0] == outcomes[k - 1]);
    let page = outcomes[k - 1]->Ok_0;
    assert(outcomes[k - 1] == Ok::<PageView, FetchErrorView>(page));
    lemma_merge_concat(state.events, gathered(outcomes, k - 1), page.events);
    lemma_run_unfold(after(state, outcomes, k - 1), rest);
}

/// A failed fetch ends the reconstruction with an error, never with events.
/// If the first `k - 1` pages advance and fetch `k` fails, it makes exactly
/// `k` fetches and ends with an error that holds the room and the cause;
/// nothing of what was gathered is handed out.
pub proof fn lemma_failure(
    state: ReconstructorView,
    outcomes: Seq<Result<PageView, FetchErrorView>>,
    k: int,
)
    requires
        1 <= k <= outcomes.len(),
        advancing(state, outcomes, k - 1),
        outcomes[k - 1] is Err,
    ensures
        run(state, outcomes) == ProgressView::Failed(
            ReconstructionErrorView { room_id: state.room_id, cause: outcomes[k - 1]->Err_0 },
        ),
        !(run(state, outcomes) is Done),
        fetches(state, outcomes) == k,
{
    lemma_run_advancing(state, outcomes, k - 1);
    let rest = outcomes.subrange(k - 1, outcomes.len() as int);
    assert(rest[0] == outcomes[k - 1]);
    lemma_run_unfold(after(state, outcomes, k - 1), rest);
}

/// Every page event carries an identifier.
pub open spec fn all_identified(outcomes: Seq<Result<PageView, FetchErrorView>>) -> bool {
    forall|i: int, j: int|
        0 <= i < outcomes.len() && outcomes[i] is Ok && 0 <= j < outcomes[i]->Ok_0.events.len()
            ==> (#[trigger] outcomes[i]->Ok_0.events[j]).id() is Some
}

/// Two states that differ at most in the events they hold.
pub open spec fn same_place(a: ReconstructorView, b: ReconstructorView) -> bool {
    a.room_id == b.room_id && a.direction == b.direction && a.cursor == b.cursor
}

/// What a finished run hands out holds every identifier that the state held.
proof fn lemma_run_keeps_ids(
    state: ReconstructorView,
    outcomes: Seq<Result<PageView, FetchErrorView>>,
    id: Seq<char>,
)
    requires
        run(state, outcomes) is Done,
        has_id(state.events, id),
    ensures
        has_id(run(state, outcomes)->Done_0, id),
    decreases outcomes.len(),
{
    if outcomes.len() > 0 {
        match outcomes[0] {
            Ok(page) => {
                lemma_merge_ids(state.events, page.events, id);
                match step(state, outcomes[0]) {
                    ProgressView::More(next) => {
                        lemma_run_keeps_ids(next, outcomes.drop_first(), id);
                    },
                    _ => {},
                }
            },
            Err(_) => {},
        }
    }
}

/// Running again from the result changes nothing.
proof fn lemma_run_again(
    state: ReconstructorView,
    settled: ReconstructorView,
    outcomes: Seq<Result<PageView, FetchErrorView>>,
)
    requires
        run(state, outcomes) is Done,
        same_place(state, settled),
        settled.events == run(state, outcomes)->Done_0,
        all_identified(outcomes),
    ensures
        run(settled, outcomes) == run(state, outcomes),
        fetches(settled, outcomes) == fetches(state, outcomes),
    decreases outcomes.len(),
{
    let result = settled.events;
    let page = outcomes[0]->Ok_0;
    let rest = outcomes.drop_first();
    assert(outcomes[0] == Ok::<PageView, FetchErrorView>(page));
    if page.events.len() > 0 {
        assert forall|j: int| 0 <= j < page.events.len() implies repeats(
            result,
            #[trigger] page.events[j],
        ) by {
            let id = page.events[j].id().unwrap();
            assert(outcomes[0]->Ok_0.events[j].id() is Some);
            lemma_merge_ids(state.events, page.events, id);
            assert(has_id(page.events, id));
            match step(state, outcomes[0]) {
                ProgressView::More(next) => {
                    lemma_run_keeps_ids(next, rest, id);
                },
                _ => {},
            }
        }
        lemma_merge_known(result, page.events);
        match step(state, outcomes[0]) {
            ProgressView::More(next) => {
                let settled_next = step(settled, outcomes[0])->More_0;
                assert forall|i: int, j: int|
                    0 <= i < rest.len() && rest[i] is Ok && 0 <= j < rest[i]->Ok_0.events.len()
                        implies (#[trigger] rest[i]->Ok_0.events[j]).id() is Some by {
                    assert(rest[i] == outcomes[i + 1]);
                    assert(outcomes[i + 1]->Ok_0.events[j].id() is Some);
                }
                lemma_run_again(next, settled_next, rest);
            },
            _ => {},
        }
    }
}

/// Reconstructing twice gives the same history. If a reconstruction against
/// a server that answers with `outcomes` ends with `result`, then one that
/// starts from `result` as its live segment, against the same answers, makes
/// the same fetches and ends with `result` again: the same events in the
/// same order. This is stated for pages whose events all carry an
/// identifier; an event without one repeats nothing and is gathered each
/// time it arrives.
pub proof fn lemma_replay_again(
    room_id: Seq<char>,
    seed: Seq<EventView>,
    cursor: SyncCursorView,
    direction: Direction,
    outcomes: Seq<Result<PageView, FetchErrorView>>,
)
    requires
        run(start(room_id, seed, cursor, direction), outcomes) is Done,
        all_identified(outcomes),
    ensures
        run(start(room_id, run(start(room_id, seed, cursor, direction), outcomes)->Done_0, cursor, direction), outcomes)
            == run(start(room_id, seed, cursor, direction), outcomes),
        fetches(start(room_id, run(start(room_id, seed, cursor, direction), outcomes)->Done_0, cursor, direction), outcomes)
            == fetches(start(room_id, seed, cursor, direction), outcomes),
{
    let first = start(room_id, seed, cursor, direction);
    let result = run(first, outcomes)->Done_0;
    crate::history::lemma_merge_unique(Seq::empty(), seed);
    lemma_run_unique(first, outcomes);
    lemma_dedup_unique(result);
    lemma_run_again(first, start(room_id, result, cursor, direction), outcomes);
}

/// What a finished run hands out holds no identifier twice, if the state
/// it started from held none twice.
pub proof fn lemma_run_unique(state: ReconstructorView, outcomes: Seq<Result<PageView, FetchErrorView>>)
    requires
        run(state, outcomes) is Done,
        unique_ids(state.events),
    ensures
        unique_ids(run(state, outcomes)->Done_0),
    decreases outcomes.len(),
{
    if outcomes.len() > 0 {
        match outcomes[0] {
            Ok(page) => {
                crate::history::lemma_merge_unique(state.events, page.events);
                match step(state, outcomes[0]) {
                    ProgressView::More(next) => {
                        lemma_run_unique(next, outcomes.drop_first());
                    },
                    _ => {},
                }
            },
            Err(_) => {},
        }
    }
}

} // verus!
