//! Event model and history reconstruction for a federated chat client.
//!
//! The library reads the documents that a home server answers with, keeps
//! each room event as a typed value or, where it cannot, as the document it
//! came in, and rebuilds a room's history from the live timeline and the
//! pages before it. It makes no request itself: it says what to ask for and
//! is told what came back.

pub mod json;
pub mod decode;
pub mod error;
pub mod event;
pub mod roundtrip;
pub mod cursor;
pub mod page;
pub mod history;
pub mod laws;
pub mod name;
pub mod snapshot;
pub mod sync;
