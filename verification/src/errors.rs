use vstd::prelude::*;

verus! {

/// Everything a command can fail with. Every failure aborts the command
/// before any mutation or persistence; no partial state is ever written.
#[derive(Clone, Copy, Debug, PartialEq, Eq, Structural)]
pub enum ErrorCode {
    /// `start_match` found a record already present for the instance.
    AlreadyExists,
    /// A command named an instance whose record was never created.
    NotFound,
    /// A goal was recorded outside the `InProgress` state.
    GameNotInProgress,
    /// A goal named neither team of the match.
    InvalidTeam,
    /// The persistence medium could not complete a read or write.
    /// Reserved for fallible media; the in-memory store never reports it.
    StorageUnavailable,
    /// A goal would push a score past the largest representable value.
    ScoreOverflow,
}

} // verus!
