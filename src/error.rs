use vstd::prelude::*;

verus! {

/// Why a call to the upstream service gave no result.
#[derive(Debug, Clone, Copy, PartialEq, Eq, Structural)]
pub enum RiotApiError {
    /// The access key is not configured.
    EnviromentalVariableError,
    /// The service could not be reached or did not answer with success.
    RiotApiError,
    /// The answer did not have the expected shape.
    SchemaError,
}

} // verus!
