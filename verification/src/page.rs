//! One page of a room's history, as the server hands it out.

use vstd::prelude::*;
use crate::error::{DecodeError, DecodeErrorView};
use crate::event::{copy_all, parse_all, parse_all_spec, views, Event, EventView};
use crate::json::{Json, JsonValue};

verus! {

/// Which way a room's history is walked. The server orders the events of a
/// page along the way it was asked to walk.
#[derive(Debug, Clone, Copy, PartialEq, Eq, Structural)]
pub enum Direction {
    /// From newer events to older ones.
    Backward,
    /// From older events to newer ones.
    Forward,
}

/// One page: its events in the server's order, and the tokens of its two ends.
#[derive(Debug, PartialEq, Eq)]
pub struct Page {
    pub events: Vec<Event>,
    pub start: String,
    pub end: String,
}

/// The value of a [`Page`].
pub ghost struct PageView {
    pub events: Seq<EventView>,
    pub start: Seq<char>,
    pub end: Seq<char>,
}

impl View for Page {
    type V = PageView;

    open spec fn view(&self) -> PageView {
        PageView { events: views(self.events@), start: self.start@, end: self.end@ }
    }
}

/// The page that a document stands for: its member `chunk` must be an array,
/// `start` and `end` strings. The error names the first of the three that is
/// missing or has another type. The elements of `chunk` are read one by one,
/// and none of them can make the page fail.
pub open spec fn page_of(raw: JsonValue) -> Result<PageView, DecodeErrorView> {
    match raw.field("chunk"@) {
        Some(JsonValue::Array(chunk)) => match raw.text_field("start"@) {
            Some(start) => match raw.text_field("end"@) {
                Some(end) => Ok(PageView { events: parse_all_spec(chunk), start, end }),
                None => Err(DecodeErrorView::Schema("end"@)),
            },
            None => Err(DecodeErrorView::Schema("start"@)),
        },
        _ => Err(DecodeErrorView::Schema("chunk"@)),
    }
}

/// The value of the outcome of reading a page.
pub open spec fn decoded_view(decoded: Result<Page, DecodeError>) -> Result<
    PageView,
    DecodeErrorView,
> {
    match decoded {
        Ok(page) => Ok(page@),
        Err(error) => Err(error@),
    }
}

impl Page {
    /// Reads a page from the document of the server's answer.
    pub fn parse(raw: &Json) -> (decoded: Result<Page, DecodeError>)
        ensures
            decoded_view(decoded) == page_of(raw@),
    {
        let chunk = match raw.get("chunk") {
            Some(c) => match c.as_array() {
                Some(items) => items,
                None => {
                    return Err(DecodeError::Schema("chunk".to_owned()));
                },
            },
            None => {
                return Err(DecodeError::Schema("chunk".to_owned()));
            },
        };
        let start = match raw.text_field("start") {
            Some(s) => s,
            None => {
                return Err(DecodeError::Schema("start".to_owned()));
            },
        };
        let end = match raw.text_field("end") {
            Some(s) => s,
            None => {
                return Err(DecodeError::Schema("end".to_owned()));
            },
        };
        Ok(Page { events: parse_all(chunk), start, end })
    }
}

impl Clone for Page {
    fn clone(&self) -> (copy: Page)
        ensures
            copy@ == self@,
    {
        Page { events: copy_all(&self.events), start: self.start.clone(), end: self.end.clone() }
    }
}

} // verus!
