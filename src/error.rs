//! The ways a run can fail.

use vstd::prelude::*;

verus! {

/// Why a run of the tool stops short of its goal.
#[derive(Debug, Clone, Copy, PartialEq, Eq, Structural)]
pub enum RunError {
    /// There is no configuration file.
    ConfigNotFound,
    /// The configuration file is not a well-formed record.
    ConfigParseError,
    /// The configuration file could not be written.
    ConfigWriteError,
    /// The configuration holds no credential (or an empty one).
    MissingCredential,
    /// The configuration holds no location reference.
    MissingLocation,
    /// A field name that the configuration does not have.
    UnknownField,
    /// The weather service could not be reached, or answered with something unreadable.
    NetworkOrFetchError,
    /// A location search found nothing.
    EmptySearchResult,
    /// A selection outside the list of candidates.
    InvalidSelectionIndex,
    /// An event that the current stage of a run does not wait for.
    OutOfOrder,
}

} // verus!
