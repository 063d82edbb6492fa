use vstd::prelude::*;

verus! {

/// Why a value could not cross the boundary, or a view could not be resolved.
#[derive(Clone, Copy, Debug, PartialEq, Eq, Structural)]
pub enum BoundaryError {
    /// A slice is longer than a 32-bit length can say.
    LenOverflow,
    /// A slice starts at an address beyond the 32-bit address space.
    PtrOverflow,
    /// `ptr + len` of a view lies beyond the 32-bit address space.
    RangeOverflow,
    /// The range of a view reaches past the end of the memory it is resolved in.
    OutOfBounds,
}

} // verus!
