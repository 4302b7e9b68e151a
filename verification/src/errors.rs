use vstd::prelude::*;

verus! {

/// The failure taxonomy of the core. Every port failure is surfaced to its
/// caller unchanged in kind; no port or service swallows an error or
/// substitutes a default value.
#[derive(Debug, Clone, Copy, PartialEq, Eq, Structural)]
pub enum CoreError {
    /// A lookup matched no stored record.
    NotFound,
    /// A write violated the uniqueness of character names.
    Conflict,
    /// The storage transport or query failed.
    StorageError,
    /// The text provider failed: transport failure, non-success status, or a
    /// reply that breaks the structured-output contract.
    GenerationError,
    /// The speech engine failed or could not process the input.
    SynthesisError,
}

} // verus!
