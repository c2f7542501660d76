//! Why a declaration could not be converted.
use vstd::prelude::*;

verus! {

/// The ways a conversion can fail. None of them leaves a partial record.
#[derive(Debug, Clone, Copy, PartialEq, Eq, Structural)]
pub enum ConversionError {
    /// The declaration is not of the kind (struct, enum, union) that the
    /// constructor converts.
    WrongDeclarationKind,
    /// The declaration's field list does not have the shape (named, unnamed)
    /// that the constructor converts.
    WrongFieldShape,
    /// A field that must carry a name has none.
    MissingIdentifier,
}

} // verus!
