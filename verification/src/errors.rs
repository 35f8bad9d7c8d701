//! The failure taxonomy of the generator.
//!
//! Every failure is fatal for the whole structure: no partial accessor
//! code is ever produced.  Each error points at the source token that
//! caused it through an opaque location handle supplied by the caller.

use vstd::prelude::*;

verus! {

/// Why generation for a structure was aborted.
///
/// The `loc` in each variant is the location handle of the precise source
/// token the failure is reported against.
#[derive(Clone, Copy, Debug, PartialEq, Eq, Structural)]
pub enum GenError {
    /// The annotated item is not a structure with named fields.
    UnsupportedShape { loc: usize },
    /// An annotation token is not one of the four recognized forms.
    UnknownAttribute { loc: usize },
    /// `invalidates` or `computed` was given more than once on one field.
    DuplicateAttribute { loc: usize },
    /// `computed` was combined with accessors or `invalidates` on one field.
    AttributeConflict { loc: usize },
    /// An `invalidates(name)` references a field absent from the structure.
    UndefinedInvalidationTarget { loc: usize },
}

impl GenError {
    /// The location handle the error is reported at.
    pub fn location(&self) -> (r: usize)
        ensures
            r == self.loc_spec(),
    {
        match self {
            GenError::UnsupportedShape { loc } => *loc,
            GenError::UnknownAttribute { loc } => *loc,
            GenError::DuplicateAttribute { loc } => *loc,
            GenError::AttributeConflict { loc } => *loc,
            GenError::UndefinedInvalidationTarget { loc } => *loc,
        }
    }

    /// The human-readable message of the failure.
    pub fn message(&self) -> (r: String)
        ensures
            r@ == self.message_spec(),
    {
        match self {
            GenError::UnsupportedShape { .. } => "only structures with named fields are supported".to_owned(),
            GenError::UnknownAttribute { .. } => "unknown attribute".to_owned(),
            GenError::DuplicateAttribute { .. } => "attribute already set for this field".to_owned(),
            GenError::AttributeConflict { .. } => "attribute is not allowed on a computed field".to_owned(),
            GenError::UndefinedInvalidationTarget { .. } => "invalidates references a field that does not exist".to_owned(),
        }
    }

    /// The message, at the specification level.
    pub open spec fn message_spec(self) -> Seq<char> {
        match self {
            GenError::UnsupportedShape { .. } => "only structures with named fields are supported"@,
            GenError::UnknownAttribute { .. } => "unknown attribute"@,
            GenError::DuplicateAttribute { .. } => "attribute already set for this field"@,
            GenError::AttributeConflict { .. } => "attribute is not allowed on a computed field"@,
            GenError::UndefinedInvalidationTarget { .. } => "invalidates references a field that does not exist"@,
        }
    }

    /// The location handle, at the specification level.
    pub open spec fn loc_spec(self) -> usize {
        match self {
            GenError::UnsupportedShape { loc } => loc,
            GenError::UnknownAttribute { loc } => loc,
            GenError::DuplicateAttribute { loc } => loc,
            GenError::AttributeConflict { loc } => loc,
            GenError::UndefinedInvalidationTarget { loc } => loc,
        }
    }
}

} // verus!
