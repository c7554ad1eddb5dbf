//! Types shared by every repository.
use vstd::prelude::*;

verus! {

/// The lifecycle state of a stored record.
#[derive(Clone, Copy, Debug, PartialEq, Eq, Structural)]
pub enum DomainStatus {
    Incomplete,
    Active,
    Deleted,
    Archived,
}

} // verus!
