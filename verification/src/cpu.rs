use vstd::prelude::*;

use crate::flag::AllocFlag;
use crate::unit::Unit;
use crate::unit::copy_slice;
use crate::unit::zero_vec;
use std::collections::HashMap;

verus! {

broadcast use vstd::std_specs::hash::group_hash_axioms;

/// A host allocation handle: a slot handle standing for the address, the
/// element count, the ownership flag, and the owned element storage backing
/// the handle. A `Wrapper` view carries no storage of its own; it only names
/// the slot of the allocation it was derived from. The layout fields are
/// set only where a handle was made with an element layout other than its
/// type's own.
#[derive(Debug)]
pub struct CPUPtr<T> {
    /// The slot handle identifying the allocation.
    pub ptr: u64,
    /// The number of elements.
    pub len: usize,
    /// Ownership flag deciding what disposal does.
    pub flag: AllocFlag,
    /// The element storage backing this handle.
    pub data: Vec<T>,
    /// An element alignment overriding the type's, where one was set.
    pub align: Option<usize>,
    /// An element size overriding the type's, where one was set.
    pub size: Option<usize>,
}

impl<T> CPUPtr<T> {
    /// An allocation handle is well formed when its storage matches its
    /// length; a non-owning `Wrapper` view holds no storage.
    pub open spec fn wf(self) -> bool {
        if self.flag == AllocFlag::Wrapper {
            self.data@.len() == 0
        } else {
            self.data@.len() == self.len
        }
    }

    /// Wraps an existing slot handle into a non-owning view. Dropping the
    /// view never releases the slot, which prevents a double free.
    pub fn from_ptr(ptr: u64, len: usize, flag: AllocFlag) -> (r: CPUPtr<T>)
        ensures
            r.ptr == ptr,
            r.len == len,
            r.flag == flag,
            r.data@.len() == 0,
            r.align is None,
            r.size is None,
    {
        CPUPtr { ptr, len, flag, data: Vec::new(), align: Option::None, size: Option::None }
    }

    /// The entire storage of this handle as a slice.
    pub fn as_slice(&self) -> (r: &[T])
        ensures
            r@ == self.data@,
    {
        self.data.as_slice()
    }

    /// The entire storage of this handle as a mutable slice.
    pub fn as_mut_slice(&mut self) -> (r: &mut Vec<T>)
        ensures
            *r == old(self).data,
            final(self).data == *final(r),
            final(self).ptr == old(self).ptr,
            final(self).len == old(self).len,
            final(self).flag == old(self).flag,
            final(self).align == old(self).align,
            final(self).size == old(self).size,
    {
        &mut self.data
    }

    /// The number of elements the handle stands for.
    pub fn size(&self) -> (r: usize)
        ensures
            r == self.len,
    {
        self.len
    }

    /// The element alignment and size of this handle: the stored override
    /// where one was set, the type's own layout otherwise. A handle with an
    /// alignment override but no size override is malformed, ruled out by
    /// contract.
    pub fn layout_info(&self) -> (r: (usize, usize))
        requires
            self.align is Some ==> self.size is Some,
        ensures
            self.align is Some ==> r == (self.align.unwrap(), self.size.unwrap()),
            self.align is None ==> r == (
                vstd::layout::align_of_as_usize::<T>(),
                vstd::layout::size_of_as_usize::<T>(),
            ),
    {
        match (&self.align, &self.size) {
            (Some(align), Some(size)) => (*align, *size),
            _ => (core::mem::align_of::<T>(), core::mem::size_of::<T>()),
        }
    }

    /// A non-owning view of this handle: it names the same slot, and its
    /// disposal never releases the allocation.
    pub fn shallow(&self) -> (r: CPUPtr<T>)
        ensures
            r.ptr == self.ptr,
            r.len == self.len,
            r.flag == AllocFlag::Wrapper,
            r.data@.len() == 0,
            r.align == self.align,
            r.size == self.size,
    {
        CPUPtr {
            ptr: self.ptr,
            len: self.len,
            flag: AllocFlag::Wrapper,
            data: Vec::new(),
            align: self.align,
            size: self.size,
        }
    }
}

/// The host memory backend: it hands out fresh slot handles and keeps the
/// registry of slots that are still allocated. Disposal consults the
/// ownership flag, so a non-owning handle never releases a slot.
#[derive(Debug)]
pub struct HostAlloc {
    /// The next fresh slot handle.
    pub next: u64,
    /// The live slots, each with its element count.
    pub alive: HashMap<u64, usize>,
}

impl HostAlloc {
    /// Every registered slot was handed out earlier than `next`.
    pub open spec fn wf(self) -> bool {
        forall|p: u64| self.alive@.contains_key(p) ==> p < self.next
    }

    /// Fresh handles remain available.
    pub open spec fn can_alloc(self) -> bool {
        self.next < u64::MAX
    }

    /// A backend with no allocations.
    pub fn new() -> (r: HostAlloc)
        ensures
            r.next == 0,
            r.alive@ == Map::<u64, usize>::empty(),
            r.wf(),
    {
        HostAlloc { next: 0, alive: HashMap::new() }
    }

    /// Allocates `len` zero-initialized elements under a fresh slot handle
    /// and registers the slot as live. Zero-length allocations are ruled out
    /// by contract.
    pub fn allocate<T: Unit>(&mut self, len: usize, flag: AllocFlag) -> (r: CPUPtr<T>)
        requires
            len > 0,
            old(self).can_alloc(),
            old(self).wf(),
        ensures
            r.ptr == old(self).next,
            r.len == len,
            r.flag == flag,
            r.data@ == Seq::new(len as nat, |i: int| T::zero_spec()),
            final(self).next == old(self).next + 1,
            final(self).alive@ == old(self).alive@.insert(r.ptr, len),
            final(self).wf(),
            flag != AllocFlag::Wrapper ==> r.wf(),
    {
        let ptr = self.next;
        self.next = self.next + 1;
        self.alive.insert(ptr, len);
        CPUPtr { ptr, len, flag, data: zero_vec(len), align: Option::None, size: Option::None }
    }

    /// Allocates a fresh slot holding a copy of `data`. The source must not
    /// be empty.
    pub fn alloc_from_slice<T: Unit>(&mut self, data: &[T], flag: AllocFlag) -> (r: CPUPtr<T>)
        requires
            data@.len() > 0,
            old(self).can_alloc(),
            old(self).wf(),
        ensures
            r.ptr == old(self).next,
            r.len == data@.len(),
            r.flag == flag,
            r.data@ == data@,
            final(self).next == old(self).next + 1,
            final(self).alive@ == old(self).alive@.insert(r.ptr, data@.len() as usize),
            final(self).wf(),
    {
        let ptr = self.next;
        self.next = self.next + 1;
        let owned = copy_slice(data);
        let len = owned.len();
        self.alive.insert(ptr, len);
        CPUPtr { ptr, len, flag, data: owned, align: Option::None, size: Option::None }
    }

    /// Allocates a fresh slot taking over the storage of `data` directly
    /// instead of copying it; semantically the same as allocating from a
    /// slice of it.
    pub fn alloc_from_vec<T: Unit>(&mut self, data: Vec<T>, flag: AllocFlag) -> (r: CPUPtr<T>)
        requires
            data@.len() > 0,
            old(self).can_alloc(),
            old(self).wf(),
        ensures
            r.ptr == old(self).next,
            r.len == data@.len(),
            r.flag == flag,
            r.data@ == data@,
            final(self).next == old(self).next + 1,
            final(self).alive@ == old(self).alive@.insert(r.ptr, data@.len() as usize),
            final(self).wf(),
    {
        let ptr = self.next;
        self.next = self.next + 1;
        let len = data.len();
        self.alive.insert(ptr, len);
        CPUPtr { ptr, len, flag, data, align: Option::None, size: Option::None }
    }

    /// Runs the disposal routine for a handle. Only an `Owned` handle
    /// releases its slot; a `Wrapper` view or a cache-owned handle leaves
    /// the registry untouched, so the allocation behind it stays live.
    pub fn dispose<T>(&mut self, ptr: CPUPtr<T>)
        ensures
            final(self).next == old(self).next,
            ptr.flag.is_owning() ==> final(self).alive@ == old(self).alive@.remove(ptr.ptr),
            !ptr.flag.is_owning() ==> final(self).alive@ == old(self).alive@,
            old(self).wf() ==> final(self).wf(),
    {
        match ptr.flag {
            AllocFlag::Owned => {
                self.alive.remove(&ptr.ptr);
            },
            AllocFlag::Wrapper => {
            },
            AllocFlag::BorrowedCache => {
            },
        }
        proof {
            if !ptr.flag.is_owning() {
                assert(self.alive@ =~= old(self).alive@);
            }
        }
    }

    /// Whether the slot behind a handle is still allocated.
    pub fn is_alive(&self, ptr: u64) -> (r: bool)
        ensures
            r == self.alive@.contains_key(ptr),
    {
        self.alive.contains_key(&ptr)
    }
}


impl Default for HostAlloc {
    fn default() -> (r: HostAlloc)
        ensures
            r.next == 0,
            r.alive@ == Map::<u64, usize>::empty(),
            r.wf(),
    {
        HostAlloc::new()
    }
}

} // verus!
