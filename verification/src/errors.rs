//! Error kinds surfaced by terminal operations.

use vstd::prelude::*;

verus! {

/// The three failure kinds a terminal operation can surface: an I/O failure
/// reported by the environment, a request for the identifier before one was
/// set, and data whose declared dimensionality is unsupported.
#[derive(Debug, Clone)]
pub enum SavingError {
    /// Directory creation, file write or process spawn failed; carries the
    /// environment's message.
    Io(String),
    /// A checked identifier was requested but no id is set: a caller logic
    /// error, distinct from any environment failure.
    MissingId,
    /// The declared dimensionality is outside the supported set `{1, 2}`.
    UnsupportedDimension,
}

impl PartialEq for SavingError {
    fn eq(&self, other: &SavingError) -> (r: bool) {
        match (self, other) {
            (SavingError::Io(a), SavingError::Io(b)) => *a == *b,
            (SavingError::MissingId, SavingError::MissingId) => true,
            (SavingError::UnsupportedDimension, SavingError::UnsupportedDimension) => true,
            _ => false,
        }
    }
}

impl vstd::std_specs::cmp::PartialEqSpecImpl for SavingError {
    open spec fn obeys_eq_spec() -> bool {
        true
    }

    open spec fn eq_spec(&self, other: &SavingError) -> bool {
        match (self, other) {
            (SavingError::Io(a), SavingError::Io(b)) => a@ == b@,
            (SavingError::MissingId, SavingError::MissingId) => true,
            (SavingError::UnsupportedDimension, SavingError::UnsupportedDimension) => true,
            _ => false,
        }
    }
}

impl Eq for SavingError {}

impl SavingError {
    /// A short human-readable description of the failure.
    pub fn message(&self) -> (r: String)
        ensures
            self is Io ==> r@ == self->0@,
            self is MissingId ==> r@ == "the identifier is not set"@,
            self is UnsupportedDimension ==> r@ == "unsupported dimensionality"@,
    {
        match self {
            SavingError::Io(m) => m.clone(),
            SavingError::MissingId => "the identifier is not set".to_owned(),
            SavingError::UnsupportedDimension => "unsupported dimensionality".to_owned(),
        }
    }
}

} // verus!
