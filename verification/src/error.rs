//! The ways in which a command can fail.

use vstd::prelude::*;

verus! {

/// Why a command was not carried out.
#[derive(Debug, Clone, Copy, PartialEq, Eq, Structural)]
pub enum TodoError {
    /// The state could not be read.
    IOError,
    /// What was read is not a JSON object.
    ParseError,
    /// A status is neither `PENDING` nor `DONE`.
    UnsupportedStatus,
    /// The arguments are not a known verb and a title.
    UsageError,
    /// The verb needs a title that the state holds, and the state does not hold it.
    NotFound,
}

} // verus!
