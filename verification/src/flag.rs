use vstd::prelude::*;

verus! {

/// Ownership tag carried by every raw allocation.
///
/// Only an allocation flagged `Owned` runs the deallocation routine when it
/// is disposed of; `Wrapper` views and `BorrowedCache` entries never release
/// the underlying slot, which is what rules out double frees when several
/// handles refer to one allocation.
#[derive(Debug, Clone, Copy, PartialEq, Eq, Structural)]
pub enum AllocFlag {
    /// Exclusively owned allocation: disposal releases the slot.
    Owned,
    /// Non-owning view over an allocation owned elsewhere.
    Wrapper,
    /// Allocation handed out by the cache, which keeps ownership.
    BorrowedCache,
}

impl AllocFlag {
    /// Disposal releases the underlying slot only for this flag.
    pub open spec fn is_owning(self) -> bool {
        self == AllocFlag::Owned
    }
}

impl Default for AllocFlag {
    fn default() -> (r: Self)
        ensures
            r == AllocFlag::Owned,
    {
        AllocFlag::Owned
    }
}

} // verus!
