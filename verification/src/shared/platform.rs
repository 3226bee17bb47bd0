//! Types shared by every user of the translator.
use vstd::prelude::*;

verus! {

/// A failed allocation, or an index outside a collection.
#[derive(Clone, Copy, Debug, PartialEq, Eq, Structural)]
pub enum SharedAllocError {
    Alloc,
    InvalidIndex,
}

} // verus!
