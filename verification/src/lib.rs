//! A to-do list kept as a JSON object of titles and statuses.
//!
//! A task is a title with a status, `PENDING` or `DONE`. The whole list is one
//! JSON object that maps each title to the name of its status. A command names
//! a verb and a title; it is applied to the object as it was read, and the
//! object that results is written back whole.
//!
//! The library holds everything but the reading and the writing: it takes the
//! arguments and the text that was read, and returns the text to write or the
//! reason why nothing is to be written.

pub mod cli;
pub mod error;
pub mod json;
pub mod processes;
pub mod state;
pub mod text;
pub mod to_do;
