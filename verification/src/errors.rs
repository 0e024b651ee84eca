//! The engine's error kinds. Failures of outside collaborators (HTTP
//! transport, response decoding, the signing service, the filesystem)
//! are classified into these kinds at the point where the surrounding
//! application hands their outcomes to the engine.

use vstd::prelude::*;

verus! {

/// One of the failure kinds the engine distinguishes.
#[derive(Clone, Copy, Debug, PartialEq, Eq, Structural)]
pub enum EngineError {
    /// HTTP or socket failure, including a body that could not be read.
    Transport,
    /// A response that could not be decoded.
    Decode,
    /// The signing service answered with a non-zero application code.
    Application,
    /// A filesystem failure.
    Io,
    /// The run was cancelled.
    Cancelled,
    /// A bounded retry budget was used up.
    BudgetExhausted,
    /// An unrecoverable configuration or accounting fault.
    Fatal,
}

} // verus!
