//! Typed failures for configuration and simulation.
//!
//! Every failure the library can report is a variant here, together with a
//! human-readable message naming the violated precondition.
use vstd::prelude::*;

verus! {

/// Names the kernel parameter whose token was absent.
#[derive(Debug, Clone, Copy, PartialEq, Eq, Structural)]
pub enum ParamName {
    TimeSteps,
    Nodes,
}

/// Every error the library reports, detected eagerly and surfaced as a typed
/// value, never as a panic.
#[derive(Debug, Clone, Copy, PartialEq, Eq, Structural)]
pub enum ConfigError {
    /// No simulation-kind selector token was present.
    MissingSimulationKind,
    /// The selector token matched no registered simulation kind.
    UnknownSimulationKind,
    /// A required numeric parameter token was absent.
    MissingParameter(ParamName),
    /// A parameter token was present but was not a valid non-negative
    /// integer that fits the machine's word size.
    InvalidNumericParameter,
    /// The grid has too few nodes to read the fixed observation index.
    ObservationIndexOutOfRange,
    /// A field update would read outside the grid.  The kernel's zero-field
    /// boundary convention resolves every edge read, so no run of this
    /// library reports it; it stays in the taxonomy for kinds whose boundary
    /// policy may not.
    EdgeAccessOutOfRange,
}

impl ConfigError {
    /// A human-readable message identifying the violated precondition.
    pub fn message(&self) -> (r: &'static str)
        ensures
            *self is MissingSimulationKind ==> r@ == "no simulation specified"@,
            *self is UnknownSimulationKind ==> r@ == "provided task did not match any defined tasks"@,
            *self == ConfigError::MissingParameter(ParamName::TimeSteps) ==> r@
                == "number of time steps not provided"@,
            *self == ConfigError::MissingParameter(ParamName::Nodes) ==> r@
                == "number of nodes not provided"@,
            *self is InvalidNumericParameter ==> r@
                == "parameter is not a valid non-negative integer"@,
            *self is ObservationIndexOutOfRange ==> r@
                == "observation index lies outside the grid"@,
            *self is EdgeAccessOutOfRange ==> r@ == "field access lies outside the grid"@,
    {
        match self {
            ConfigError::MissingSimulationKind => "no simulation specified",
            ConfigError::UnknownSimulationKind => "provided task did not match any defined tasks",
            ConfigError::MissingParameter(ParamName::TimeSteps) => "number of time steps not provided",
            ConfigError::MissingParameter(ParamName::Nodes) => "number of nodes not provided",
            ConfigError::InvalidNumericParameter => "parameter is not a valid non-negative integer",
            ConfigError::ObservationIndexOutOfRange => "observation index lies outside the grid",
            ConfigError::EdgeAccessOutOfRange => "field access lies outside the grid",
        }
    }
}

} // verus!
