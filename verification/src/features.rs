use vstd::prelude::*;

use crate::buffer::Buffer;
use crate::cpu::CPUPtr;
use crate::cpu::HostAlloc;
use crate::devices::CPU;
use crate::error::DeviceError;
use crate::flag::AllocFlag;
use crate::lazy_graph::LazyOp;
use crate::tape::GradFn;
use crate::tape::Tape;
use crate::unit::Unit;

verus! {

/// Marker for composable behavior layers.
pub trait Feature {}

/// The module-level retrieval capability: the core allocation-or-reuse
/// decision point. Each layer either produces storage itself or forwards to
/// the layer beneath it; `ret_ens` fixes per implementor what the call did.
///
/// Whatever the layer does, the storage it returns is never a bare wrapper
/// view, its handle was issued by the backend, and the backend's handle
/// counter never moves backwards.
pub trait Retrieve<T: Unit>: Sized {
    /// When this layer accepts a retrieval of `len` elements.
    spec fn ret_req(self, mem: HostAlloc, len: usize) -> bool;

    /// What the retrieval did to the layer and the backend, and what
    /// storage it returned.
    spec fn ret_ens(
        pre: Self,
        pre_mem: HostAlloc,
        len: usize,
        post: Self,
        post_mem: HostAlloc,
        r: CPUPtr<T>,
    ) -> bool;

    /// What the post-retrieve hook did to the layer.
    spec fn finish_ens(pre: Self, buf: Buffer<T>, post: Self) -> bool;

    /// Produces storage for `len` elements, reusing a pooled allocation
    /// where this layer keeps one.
    fn retrieve(&mut self, mem: &mut HostAlloc, len: usize) -> (r: CPUPtr<T>)
        requires
            len > 0,
            old(mem).wf(),
            old(mem).can_alloc(),
            Self::ret_req(*old(self), *old(mem), len),
        ensures
            r.len == len,
            r.flag != AllocFlag::Wrapper,
            r.wf(),
            r.ptr < final(mem).next,
            old(mem).next <= final(mem).next,
            final(mem).wf(),
            Self::ret_ens(*old(self), *old(mem), len, *final(self), *final(mem), r),
    ;

    /// Hook fired once the retrieved storage has been wrapped into a
    /// buffer.
    fn on_retrieve_finish(&mut self, retrieved_buf: &Buffer<T>)
        ensures
            Self::finish_ens(*old(self), *retrieved_buf, *final(self)),
    ;
}

/// The disposal hook: when a buffer is dropped, the module chain is walked
/// so every layer can release or retain its bookkeeping, and the backend
/// disposal runs under the buffer's ownership flag. Whatever the layers do,
/// a non-owning handle never releases the slot behind it.
pub trait OnDropBuffer: Sized {
    /// What the disposal did to this layer.
    spec fn drop_ens(pre: Self, buf: Buffer<i32>, post: Self) -> bool;

    /// Runs the disposal chain for `buf` against the backend.
    fn on_drop_buffer(&mut self, mem: &mut HostAlloc, buf: Buffer<i32>)
        ensures
            Self::drop_ens(*old(self), buf, *final(self)),
            buf.data.flag.is_owning() ==> final(mem).alive@ == old(mem).alive@.remove(
                buf.data.ptr,
            ),
            !buf.data.flag.is_owning() ==> final(mem).alive@ == old(mem).alive@,
            final(mem).next == old(mem).next,
    ;
}

/// Access to the gradient tape, where one exists in the module stack.
/// Stacks without an autograd layer return nothing and record nothing, so
/// callers degrade gracefully when the capability is absent.
pub trait TapeActions: Sized {
    /// The tape this stack carries, if any.
    spec fn tape_spec(self) -> Option<Tape>;

    /// What recording one backward operation did to the stack.
    spec fn add_grad_fn_ens(pre: Self, grad_fn: GradFn, post: Self) -> bool;

    /// The tape, where the stack has one.
    fn tape(&self) -> (r: Option<&Tape>)
        ensures
            match r {
                Some(t) => self.tape_spec() == Some(*t),
                None => self.tape_spec() is None,
            },
    ;

    /// Records a backward operation on the tape; a no-op where the stack
    /// has none.
    fn add_grad_fn(&mut self, grad_fn: GradFn)
        ensures
            Self::add_grad_fn_ens(*old(self), grad_fn, *final(self)),
    ;
}

/// Setup work a module performs on the device that hosts it.
pub trait Setup<D> {
    /// Prepares the device; nothing to do by default.
    fn setup(device: &mut D) -> (r: Result<(), DeviceError>) {
        Ok(())
    }
}

/// A module's part of running the deferred work a device holds.
pub trait RunModule<D> {
    /// Runs the module's deferred work; nothing to do by default.
    fn run(&self, device: &D) -> (r: Result<(), DeviceError>) {
        Ok(())
    }
}

/// A device that can run its deferred work.
pub trait Run {
    /// Runs all deferred work.
    fn run(&mut self) -> Result<(), DeviceError>;
}

/// Access to the module stack a device hosts.
pub trait HasModules<Mods> {
    /// The module stack.
    fn modules(&self) -> &Mods;
}

/// Recording one deferred operation on a buffer.
pub trait AddOperation {
    /// Records `operation` against `out`, or executes it eagerly where no
    /// graph is kept.
    fn add_op(&mut self, out: &mut Buffer<i32>, operation: LazyOp) -> Result<(), DeviceError>;
}

/// Access to a host device that stands beside another backend.
pub trait HasCPU<Mods> {
    /// The host device.
    fn cpu(&self) -> &CPU<Mods>;
}

/// Moving a host buffer into another device's memory without a copy, where
/// the two share memory.
pub trait UnifiedMemChain<D> {
    /// Builds a buffer of `device` over the storage of a host buffer.
    fn construct_unified_buf_from_cpu_buf(&mut self, device: &mut D, no_drop_buf: Buffer<i32>) -> Result<
        Buffer<i32>,
        DeviceError,
    >;
}

/// What a device-or-host dispatch decided.
#[derive(Debug, Clone, Copy, PartialEq, Eq, PartialOrd, Ord, Default)]
pub struct GpuOrCpuInfo {
    /// Whether the host path was taken.
    pub use_cpu: bool,
    /// Whether the decision came from a cached measurement.
    pub is_result_cached: bool,
}

/// Choosing between a host and a device implementation of one operation,
/// keyed by the call site and the input sizes.
pub trait UseGpuOrCpu {
    /// Runs one of the two closures and reports which was taken.
    fn use_cpu_or_gpu<F: FnOnce() -> (), G: FnOnce() -> ()>(
        &mut self,
        location: u64,
        input_lengths: &[usize],
        cpu_op: F,
        gpu_op: G,
    ) -> GpuOrCpuInfo;
}

} // verus!
