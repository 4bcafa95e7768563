//! What can go wrong, and who recovers from it.

use vstd::prelude::*;
use vstd::string::StringExecFns;

verus! {

/// A document that cannot be read as what it should be.
#[derive(Debug, PartialEq, Eq)]
pub enum DecodeError {
    /// The text is no JSON document; holds the parser's message.
    Syntax(String),
    /// The document is nested more deeply than a document may be.
    TooDeep,
    /// A member that the schema requires is missing or has another type;
    /// holds the member's name.
    Schema(String),
}

/// The value of a [`DecodeError`].
pub ghost enum DecodeErrorView {
    Syntax(Seq<char>),
    TooDeep,
    Schema(Seq<char>),
}

impl View for DecodeError {
    type V = DecodeErrorView;

    open spec fn view(&self) -> DecodeErrorView {
        match *self {
            DecodeError::Syntax(message) => DecodeErrorView::Syntax(message@),
            DecodeError::TooDeep => DecodeErrorView::TooDeep,
            DecodeError::Schema(member) => DecodeErrorView::Schema(member@),
        }
    }
}

/// Why a page could not be had.
#[derive(Debug, PartialEq, Eq)]
pub enum FetchError {
    /// The request failed on the way; holds the transport's message.
    Transport(String),
    /// An answer came, and was no page.
    Decode(DecodeError),
}

/// The value of a [`FetchError`].
pub ghost enum FetchErrorView {
    Transport(Seq<char>),
    Decode(DecodeErrorView),
}

impl View for FetchError {
    type V = FetchErrorView;

    open spec fn view(&self) -> FetchErrorView {
        match *self {
            FetchError::Transport(message) => FetchErrorView::Transport(message@),
            FetchError::Decode(error) => FetchErrorView::Decode(error@),
        }
    }
}

/// Why a room's name could not be looked up.
#[derive(Debug, PartialEq, Eq)]
pub enum LookupError {
    /// The request failed on the way; holds the transport's message.
    Transport(String),
    /// The server knows no such room, or no name for it.
    NotFound,
}

/// The value of a [`LookupError`].
pub ghost enum LookupErrorView {
    Transport(Seq<char>),
    NotFound,
}

impl View for LookupError {
    type V = LookupErrorView;

    open spec fn view(&self) -> LookupErrorView {
        match *self {
            LookupError::Transport(message) => LookupErrorView::Transport(message@),
            LookupError::NotFound => LookupErrorView::NotFound,
        }
    }
}

/// A reconstruction that was given up: the room, and the failure that ended it.
#[derive(Debug, PartialEq, Eq)]
pub struct ReconstructionError {
    pub room_id: String,
    pub cause: FetchError,
}

/// The value of a [`ReconstructionError`].
pub ghost struct ReconstructionErrorView {
    pub room_id: Seq<char>,
    pub cause: FetchErrorView,
}

impl View for ReconstructionError {
    type V = ReconstructionErrorView;

    open spec fn view(&self) -> ReconstructionErrorView {
        ReconstructionErrorView { room_id: self.room_id@, cause: self.cause@ }
    }
}

impl DecodeErrorView {
    /// The message that the error is reported with.
    pub open spec fn message(self) -> Seq<char> {
        match self {
            DecodeErrorView::Syntax(message) => "malformed document: "@ + message,
            DecodeErrorView::TooDeep => "document nested too deeply"@,
            DecodeErrorView::Schema(member) => "missing or mistyped member: "@ + member,
        }
    }
}

impl FetchErrorView {
    /// The message that the error is reported with.
    pub open spec fn message(self) -> Seq<char> {
        match self {
            FetchErrorView::Transport(message) => "transport failure: "@ + message,
            FetchErrorView::Decode(error) => error.message(),
        }
    }
}

impl ReconstructionErrorView {
    /// The message that the error is reported with: the room, then the cause.
    pub open spec fn message(self) -> Seq<char> {
        "reconstruction of room "@ + self.room_id + " failed: "@ + self.cause.message()
    }
}

impl DecodeError {
    /// The message for the user.
    pub fn message(&self) -> (text: String)
        ensures
            text@ == self@.message(),
    {
        match self {
            DecodeError::Syntax(message) => "malformed document: ".to_owned().concat(
                message.as_str(),
            ),
            DecodeError::TooDeep => "document nested too deeply".to_owned(),
            DecodeError::Schema(member) => "missing or mistyped member: ".to_owned().concat(
                member.as_str(),
            ),
        }
    }
}

impl FetchError {
    /// The message for the user.
    pub fn message(&self) -> (text: String)
        ensures
            text@ == self@.message(),
    {
        match self {
            FetchError::Transport(message) => "transport failure: ".to_owned().concat(
                message.as_str(),
            ),
            FetchError::Decode(error) => error.message(),
        }
    }
}

impl ReconstructionError {
    /// The message for the user, which names the room and the cause.
    pub fn message(&self) -> (text: String)
        ensures
            text@ == self@.message(),
    {
        let cause = self.cause.message();
        "reconstruction of room ".to_owned().concat(self.room_id.as_str()).concat(
            " failed: ",
        ).concat(cause.as_str())
    }
}

} // verus!
