//! The handle of the raw memory allocator.

use vstd::prelude::*;

verus! {

/// A simple memory allocator. The handle carries no state; the calls that
/// obtain and release raw memory are made by the embedding code.
#[derive(Debug, Clone, Copy, PartialEq, Eq, Structural)]
pub struct Allocator;

impl Allocator {
    /// Creates a new allocator.
    pub fn new() -> (r: Self)
        ensures
            r == Allocator,
    {
        Allocator
    }
}

} // verus!
