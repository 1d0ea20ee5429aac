//! Client-side model of a remote analytical query service.
//!
//! * [`types`]: the request and response shapes, the execution states with
//!   their wire tags, and the paging options with their query-string encoding.
//! * [`tracker`]: the lifecycle tracker, a state machine that says when to
//!   poll, when to wait and when to stop, and is driven from outside.
//! * [`error`]: the error kinds and the classification of rejected requests.
//! * [`text`]: decimal numerals and joined lists, as the encodings use them.
//!
//! The library performs no I/O: a transport sends what it builds and hands
//! back what came.

pub mod error;
pub mod text;
pub mod tracker;
pub mod types;
