//! The record of a task, and the two kinds of task that wrap it.

pub mod base;
pub mod done;
pub mod pending;
