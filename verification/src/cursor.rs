//! The tokens by which the server lets a client resume.

use vstd::prelude::*;

verus! {

/// The tokens of a session: where live synchronisation resumes, and where the
/// next page of a room's history starts. A token is passed back to the server
/// as it came; nothing here reads what it holds.
#[derive(Debug, PartialEq, Eq)]
pub struct SyncCursor {
    next_batch: String,
    page: String,
}

/// The value of a [`SyncCursor`].
pub ghost struct SyncCursorView {
    pub next_batch: Seq<char>,
    pub page: Seq<char>,
}

impl View for SyncCursor {
    type V = SyncCursorView;

    closed spec fn view(&self) -> SyncCursorView {
        SyncCursorView { next_batch: self.next_batch@, page: self.page@ }
    }
}

impl SyncCursor {
    /// A cursor from the token of a synchronisation and that of a room's
    /// oldest loaded event.
    pub fn new(next_batch: String, page: String) -> (cursor: SyncCursor)
        ensures
            cursor@ == (SyncCursorView { next_batch: next_batch@, page: page@ }),
    {
        SyncCursor { next_batch, page }
    }

    /// The token to resume live synchronisation from.
    pub fn next_batch(&self) -> (token: &String)
        ensures
            token@ == self@.next_batch,
    {
        &self.next_batch
    }

    /// The token that the next page is asked from.
    pub fn page(&self) -> (token: &String)
        ensures
            token@ == self@.page,
    {
        &self.page
    }

    /// Takes the token of a finished synchronisation.
    pub fn advance_live(&mut self, new_token: String)
        ensures
            final(self)@ == (SyncCursorView { next_batch: new_token@, page: old(self)@.page }),
    {
        self.next_batch = new_token;
    }

    /// Takes the end token of a fetched page, and says whether it differs
    /// from the token that the page was asked from. `false` means that the
    /// server has not moved on.
    pub fn advance_page(&mut self, new_token: String) -> (moved: bool)
        ensures
            final(self)@ == (SyncCursorView { next_batch: old(self)@.next_batch, page: new_token@ }),
            moved == (new_token@ != old(self)@.page),
    {
        let moved = !(self.page == new_token);
        self.page = new_token;
        moved
    }
}

impl Clone for SyncCursor {
    fn clone(&self) -> (copy: SyncCursor)
        ensures
            copy@ == self@,
    {
        SyncCursor { next_batch: self.next_batch.clone(), page: self.page.clone() }
    }
}

} // verus!
