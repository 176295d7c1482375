//! Decision logic of a one-shot reconnaissance lookup: which request to send,
//! when to retry it, what to write down and what to hand to the summarizer.
//!
//! The library performs no I/O itself. The two state machines, `fetch::Fetcher`
//! and `run::Run`, name each outside action and take its outcome as an event.

pub mod error;
pub mod text;
pub mod fetch;
pub mod json;
pub mod lookup;
pub mod report;
pub mod summary;
pub mod run;
