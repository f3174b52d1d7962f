use vstd::prelude::*;

verus! {

/// Lifecycle phase of a match.
#[derive(Debug, Clone, Copy, PartialEq, Eq, Structural)]
pub enum MatchStatus {
    Waiting,
    Active,
    Finished,
}

/// Position of a status in the forward-only order `Waiting < Active < Finished`.
pub open spec fn status_rank(s: MatchStatus) -> nat {
    match s {
        MatchStatus::Waiting => 0,
        MatchStatus::Active => 1,
        MatchStatus::Finished => 2,
    }
}

/// Why an operation or a query was rejected.
#[derive(Debug, Clone, Copy, PartialEq, Eq, Structural)]
pub enum MatchError {
    /// The match's status does not permit the operation.
    InvalidTransition,
    /// The question index is not below the match's question count.
    OutOfRange,
    /// No match has been created yet.
    NotFound,
    /// A match was already created.
    DuplicateCreation,
}

impl MatchStatus {
    /// Whether answers are accepted in this phase.
    pub fn accepts_answers(&self) -> (r: bool)
        ensures
            r == (*self == MatchStatus::Active),
    {
        match self {
            MatchStatus::Active => true,
            _ => false,
        }
    }
}

} // verus!
