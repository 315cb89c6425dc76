use vstd::prelude::*;

use crate::cpu::CPUPtr;
use crate::devices::Alloc;
use crate::flag::AllocFlag;
use crate::gradients::accessed;
use crate::gradients::CachingError;
use crate::gradients::Gradients;
use crate::id::Id;
use crate::tape::marks_rev;
use crate::tape::run_back;
use crate::tape::Tape;
use crate::unit::copy_slice;
use crate::unit::one_vec;
use crate::unit::Unit;

verus! {

/// The user-facing handle over a device allocation: it owns the allocation
/// handle together with its storage. Its identity, the pair of slot handle
/// and length, is how caches, gradients and deferred operations refer to it.
#[derive(Debug)]
pub struct Buffer<T> {
    /// The allocation backing this buffer.
    pub data: CPUPtr<T>,
}

impl<T> Buffer<T> {
    /// A buffer is well formed when its allocation is.
    pub open spec fn wf(self) -> bool {
        self.data.wf()
    }

    /// The identity of this buffer, as seen by contracts.
    pub open spec fn id_spec(self) -> Id {
        Id { id: self.data.ptr, len: self.data.len }
    }

    /// The identity of this buffer: its slot handle and length.
    pub fn id(&self) -> (r: Id)
        ensures
            r == self.id_spec(),
    {
        Id { id: self.data.ptr, len: self.data.len }
    }

    /// The number of elements.
    pub fn len(&self) -> (r: usize)
        ensures
            r == self.data.len,
    {
        self.data.len
    }

    /// The buffer's contents as a slice; valid for host-addressable storage,
    /// which is what this backend provides.
    pub fn read(&self) -> (r: &[T])
        ensures
            r@ == self.data.data@,
    {
        self.data.as_slice()
    }
}

impl<T: Unit> Buffer<T> {
    /// Allocates a fresh, exclusively owned buffer of `len` zero-initialized
    /// elements on the given device.
    pub fn new<D: Alloc<T>>(device: &mut D, len: usize) -> (r: Buffer<T>)
        requires
            len > 0,
            D::alloc_req(*old(device)),
        ensures
            r.data.len == len,
            r.data.flag == AllocFlag::Owned,
            r.wf(),
            D::alloc_ens(*old(device), len, AllocFlag::Owned, *final(device), r.data),
    {
        Buffer { data: device.allocate(len, AllocFlag::Owned) }
    }

    /// Allocates an owned buffer holding a copy of `data`.
    pub fn from_slice<D: Alloc<T>>(device: &mut D, data: &[T]) -> (r: Buffer<T>)
        requires
            data@.len() > 0,
            D::alloc_req(*old(device)),
        ensures
            r.data.data@ == data@,
            r.data.len == data@.len(),
            r.data.flag == AllocFlag::Owned,
            r.wf(),
            D::alloc_slice_ens(*old(device), data@, AllocFlag::Owned, *final(device), r.data),
    {
        Buffer { data: device.alloc_from_slice(data) }
    }

    /// Overwrites the buffer's contents with `data`. The length is fixed at
    /// construction: writes never resize.
    pub fn write(&mut self, data: &[T])
        requires
            data@.len() == old(self).data.len,
        ensures
            final(self).data.data@ == data@,
            final(self).data.ptr == old(self).data.ptr,
            final(self).data.len == old(self).data.len,
            final(self).data.flag == old(self).data.flag,
            final(self).data.align == old(self).data.align,
            final(self).data.size == old(self).data.size,
    {
        self.data.data = copy_slice(data);
    }
}

impl Buffer<i32> {
    /// The all-ones seed a backward pass starts this buffer's gradient
    /// from.
    pub open spec fn seed_of_ones(self) -> Seq<i32> {
        Seq::new(self.data.len as nat, |i: int| 1i32)
    }

    /// The gradient of this buffer; allocates it zero-initialized when none
    /// exists yet.
    pub fn grad<'a>(&self, grads: &'a mut Gradients) -> (r: &'a Vec<i32>)
        ensures
            final(grads).grads_pool.model() == accessed(
                old(grads).grads_pool.model(),
                self.id_spec(),
            ),
            r@ == final(grads).grads_pool.model()[self.id_spec().id],
            final(grads).no_grads_pool == old(grads).no_grads_pool,
    {
        let id = self.id();
        grads.get_ref(id)
    }

    /// A copy of the gradient of this buffer; allocates the gradient
    /// zero-initialized when none exists yet.
    pub fn grad_mut(&self, grads: &mut Gradients) -> (r: Vec<i32>)
        ensures
            final(grads).grads_pool.model() == accessed(
                old(grads).grads_pool.model(),
                self.id_spec(),
            ),
            r@ == final(grads).grads_pool.model()[self.id_spec().id],
            final(grads).no_grads_pool == old(grads).no_grads_pool,
    {
        let id = self.id();
        grads.get_mut(id)
    }

    /// The gradient of this buffer, or nothing when none was allocated:
    /// the graceful form of `grad` for callers that cannot assume the
    /// capability.
    pub fn try_grad<'a>(&self, grads: &'a Gradients) -> (r: Option<&'a Vec<i32>>)
        ensures
            match r {
                Some(v) => grads.grads_pool.model().contains_key(self.id_spec().id) && v@
                    == grads.grads_pool.model()[self.id_spec().id],
                None => !grads.grads_pool.model().contains_key(self.id_spec().id),
            },
    {
        let id = self.id();
        match grads.may_get_ref(id) {
            Ok(v) => Some(v),
            Err(CachingError::InvalidId) => Option::None,
        }
    }

    /// A copy of the gradient of this buffer, or nothing when none was
    /// allocated.
    pub fn try_grad_mut(&self, grads: &mut Gradients) -> (r: Option<Vec<i32>>)
        ensures
            *final(grads) == *old(grads),
            match r {
                Some(v) => final(grads).grads_pool.model().contains_key(self.id_spec().id) && v@
                    == final(grads).grads_pool.model()[self.id_spec().id],
                None => !final(grads).grads_pool.model().contains_key(self.id_spec().id),
            },
    {
        let id = self.id();
        match grads.may_get_mut(id) {
            Ok(v) => Some(v),
            Err(CachingError::InvalidId) => Option::None,
        }
    }

    /// Seeds this buffer's gradient with ones and replays the tape in
    /// reverse recording order; returns the execution log. The tape is
    /// cleared afterwards.
    pub fn backward(&self, tape: &mut Tape, grads: &mut Gradients) -> (log: Vec<u64>)
        ensures
            final(grads).grads_pool.model() == run_back(
                old(grads).grads_pool.model().insert(self.id_spec().id, self.seed_of_ones()),
                old(tape).grad_fns@,
            ),
            final(grads).no_grads_pool == old(grads).no_grads_pool,
            log@ == marks_rev(old(tape).grad_fns@),
            final(tape).grad_fns@.len() == 0,
    {
        let seed: Vec<i32> = one_vec(self.data.len);
        tape.backward_seeded_with_buffers(self, seed.as_slice(), grads)
    }
}

} // verus!
