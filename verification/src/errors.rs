//! Error values shared across the domain: the repository error surface
//! and the failure of parsing an enum's canonical string form.
use vstd::prelude::*;

verus! {

/// Failure to map a string back to a variant of a closed enumeration
/// such as [`crate::timeframe::Timeframe`].
#[derive(Debug, Clone, Copy, PartialEq, Eq, Structural)]
pub struct VariantNotFoundError;

/// Errors surfaced by a storage repository.
#[derive(Debug, Clone, PartialEq, Eq)]
pub enum RepositoryError {
    DatabaseError(String),
    NotFound,
    Unknown,
}

} // verus!
