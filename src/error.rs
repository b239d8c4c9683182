use crate::witness::TypeScript;
use vstd::prelude::*;

verus! {

/// Why a transaction is rejected.
#[derive(Debug, Clone, Copy, PartialEq, Eq, Structural)]
pub enum Error {
    /// A witness is structurally invalid, or the parser could not be initialised.
    WitnessDecode,
    /// A required entity is absent from the witnesses.
    EntityAbsent,
    /// The entity at the requested cell has another data type than the one required.
    EntityMistyped,
    /// The witnesses never give a type id for this script.
    TypeIdNotFound(TypeScript),
    /// The parser was queried before it was initialised.
    ParserNotReady,
    /// No cell of the requested role carries the type hash.
    CellAbsent,
    /// More than one cell of the requested role carries the type hash.
    CellAmbiguous,
    /// No module of the manifest answers the algorithm selector.
    UnsupportedAlgorithm,
    /// The embedded module's digest differs from the pinned one.
    IntegrityViolation,
    /// The selected module refused the signature.
    SignatureRejected,
}

} // verus!
