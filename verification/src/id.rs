use vstd::prelude::*;

verus! {

/// Identity of a concrete allocation: the slot handle it occupies and its
/// length in elements. Buffers, gradient entries and deferred operations
/// refer to allocations through this value, never through the storage
/// itself.
#[derive(Debug, Clone, Copy, PartialEq, Eq, Hash, Structural)]
pub struct Id {
    /// The allocation slot handle.
    pub id: u64,
    /// The number of elements in the allocation.
    pub len: usize,
}

/// Positional identity of a logical retrieval slot: the value of the
/// retrieval counter at the time of the request, plus the requested length.
/// Two requests at the same counter value with the same length name the same
/// logical slot; this is what makes cache reuse across loop iterations
/// possible. It is purely positional, never derived from contents.
#[derive(Debug, Clone, Copy, PartialEq, Eq, Hash, Structural)]
pub struct Ident {
    /// Counter value at the time of the request.
    pub idx: usize,
    /// Requested length in elements.
    pub len: usize,
}

impl Ident {
    /// Reads the next identity off the explicit retrieval counter. The
    /// counter is not advanced here; the cache advances it once per
    /// retrieval, on hits and misses alike.
    pub fn new(count: &usize, len: usize) -> (r: Ident)
        ensures
            r == (Ident { idx: *count, len }),
    {
        Ident { idx: *count, len }
    }
}

/// A node identifying a cached pointer in the flat cache design: the value
/// of the counter when it was created, plus the allocation length.
#[derive(Debug, Clone, Copy, PartialEq, Eq, Hash, Structural)]
pub struct Node {
    /// Counter value at creation.
    pub idx: usize,
    /// Allocation length in elements.
    pub len: usize,
}

impl Node {
    /// Draws the next node identity from the explicit counter and advances
    /// the counter by one.
    pub fn new(count: &mut usize, len: usize) -> (r: Node)
        requires
            *old(count) < usize::MAX,
        ensures
            r == (Node { idx: *old(count), len }),
            *final(count) == *old(count) + 1,
    {
        let node = Node { idx: *count, len };
        *count = *count + 1;
        node
    }
}

/// Sets the retrieval counter. Called at loop boundaries to re-synchronize
/// the identity sequence so that a repeated run reproduces its cache hits.
pub fn set_count(count: &mut usize, c: usize)
    ensures
        *final(count) == c,
{
    *count = c;
}

/// Reads the current value of the retrieval counter.
pub fn get_count(count: &usize) -> (r: usize)
    ensures
        r == *count,
{
    *count
}

} // verus!
