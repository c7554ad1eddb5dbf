//! A minimal record of the domain.
use vstd::prelude::*;

verus! {

/// A record holding one number.
#[derive(Clone, Copy, Debug, PartialEq, Eq, Structural)]
pub struct Domain {
    pub value: u64,
}

} // verus!
