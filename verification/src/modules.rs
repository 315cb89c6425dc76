use vstd::prelude::*;

use crate::buffer::Buffer;
use crate::cache::hit_at;
use crate::cache::Cache;
use crate::cache::RawCpuBuf;
use crate::cpu::CPUPtr;
use crate::cpu::HostAlloc;
use crate::devices::Module;
use crate::features::OnDropBuffer;
use crate::features::Retrieve;
use crate::flag::AllocFlag;
use crate::gradients::Gradients;
use crate::tape::Tape;
use crate::unit::copy_slice;
use crate::unit::zero_vec;
use crate::unit::Unit;
use core::marker::PhantomData;
use std::collections::HashMap;

verus! {

broadcast use vstd::std_specs::hash::group_hash_axioms;

/// The terminal layer: every retrieval is a fresh, exclusively owned
/// allocation, with no caching and nothing to forward to.
#[derive(Debug, Clone, Copy, PartialEq, Eq, Hash, Default)]
pub struct Base;

impl<D> Module<D> for Base {
    type Module = Base;

    open spec fn new_ens(r: Base) -> bool {
        true
    }

    fn new() -> (r: Base) {
        Base
    }
}

impl<T: Unit> Retrieve<T> for Base {
    open spec fn ret_req(self, mem: HostAlloc, len: usize) -> bool {
        mem.can_alloc() && mem.wf()
    }

    open spec fn ret_ens(
        pre: Base,
        pre_mem: HostAlloc,
        len: usize,
        post: Base,
        post_mem: HostAlloc,
        r: CPUPtr<T>,
    ) -> bool {
        &&& r.ptr == pre_mem.next
        &&& r.flag == AllocFlag::Owned
        &&& r.data@ == Seq::new(len as nat, |i: int| T::zero_spec())
        &&& post_mem.next == pre_mem.next + 1
        &&& post_mem.alive@ == pre_mem.alive@.insert(r.ptr, len)
    }

    open spec fn finish_ens(pre: Base, buf: Buffer<T>, post: Base) -> bool {
        true
    }

    fn retrieve(&mut self, mem: &mut HostAlloc, len: usize) -> (r: CPUPtr<T>) {
        mem.allocate(len, AllocFlag::Owned)
    }

    fn on_retrieve_finish(&mut self, retrieved_buf: &Buffer<T>) {
    }
}

/// Stack description for the caching layer wrapped around an inner stack.
#[derive(Debug, Default)]
pub struct Cached<Mods> {
    pd: PhantomData<Mods>,
}

/// The caching layer: it keys each retrieval by the positional identity
/// drawn from its counter, returns the pooled allocation on a hit, and
/// delegates to the inner layer on a miss, pooling what comes back. The
/// counter advances identically on hits and misses, so iteration sequences
/// realign.
#[derive(Debug)]
pub struct CachedModule<Mods> {
    /// The inner layer, consulted on every miss.
    pub modules: Mods,
    /// The allocation pool and its retrieval counter.
    pub cache: Cache,
}

impl<D, Mods: Module<D>> Module<D> for Cached<Mods> {
    type Module = CachedModule<Mods::Module>;

    open spec fn new_ens(r: CachedModule<Mods::Module>) -> bool {
        &&& Mods::new_ens(r.modules)
        &&& r.cache.count == 0
        &&& r.cache.nodes@ == Map::<usize, RawCpuBuf>::empty()
    }

    fn new() -> (r: CachedModule<Mods::Module>) {
        CachedModule { modules: Mods::new(), cache: Cache::new() }
    }
}

impl<T: Unit, Mods: Retrieve<T>> Retrieve<T> for CachedModule<Mods> {
    open spec fn ret_req(self, mem: HostAlloc, len: usize) -> bool {
        &&& self.cache.count < usize::MAX
        &&& self.cache.wf(mem)
        &&& Mods::ret_req(self.modules, mem, len)
    }

    open spec fn ret_ens(
        pre: Self,
        pre_mem: HostAlloc,
        len: usize,
        post: Self,
        post_mem: HostAlloc,
        r: CPUPtr<T>,
    ) -> bool {
        &&& post.cache.count == pre.cache.count + 1
        &&& r.flag == AllocFlag::BorrowedCache
        &&& if hit_at(pre.cache.nodes@, pre.cache.count, len) {
            &&& r.ptr == pre.cache.nodes@[pre.cache.count].ptr
            &&& r.data@ == Seq::new(len as nat, |i: int| T::zero_spec())
            &&& post.cache.nodes@ == pre.cache.nodes@
            &&& post.modules == pre.modules
            &&& post_mem == pre_mem
        } else {
            exists|inner: CPUPtr<T>|
                {
                    &&& #[trigger] Mods::ret_ens(
                        pre.modules,
                        pre_mem,
                        len,
                        post.modules,
                        post_mem,
                        inner,
                    )
                    &&& r.ptr == inner.ptr
                    &&& r.len == inner.len
                    &&& r.data@ == inner.data@
                    &&& post.cache.nodes@ == pre.cache.nodes@.insert(
                        pre.cache.count,
                        RawCpuBuf { ptr: inner.ptr, len },
                    )
                }
        }
        &&& post.cache.wf(post_mem)
    }

    open spec fn finish_ens(pre: Self, buf: Buffer<T>, post: Self) -> bool {
        &&& Mods::finish_ens(pre.modules, buf, post.modules)
        &&& post.cache == pre.cache
    }

    fn retrieve(&mut self, mem: &mut HostAlloc, len: usize) -> (r: CPUPtr<T>) {
        let idx = self.cache.count;
        let pooled = match self.cache.nodes.get(&idx) {
            Option::Some(entry) => {
                if entry.len == len {
                    Option::Some(entry.ptr)
                } else {
                    Option::None
                }
            },
            Option::None => Option::None,
        };
        match pooled {
            Option::Some(ptr) => {
                self.cache.count = idx + 1;
                CPUPtr {
                    ptr,
                    len,
                    flag: AllocFlag::BorrowedCache,
                    data: zero_vec(len),
                    align: Option::None,
                    size: Option::None,
                }
            },
            Option::None => {
                let mut data = self.modules.retrieve(mem, len);
                let ghost inner = data;
                data.flag = AllocFlag::BorrowedCache;
                self.cache.nodes.insert(idx, RawCpuBuf { ptr: data.ptr, len });
                self.cache.count = idx + 1;
                proof {
                    assert(Mods::ret_ens(
                        old(self).modules,
                        *old(mem),
                        len,
                        self.modules,
                        *mem,
                        inner,
                    ));
                }
                data
            },
        }
    }

    fn on_retrieve_finish(&mut self, retrieved_buf: &Buffer<T>) {
        self.modules.on_retrieve_finish(retrieved_buf);
    }
}

/// Stack description for the autograd layer wrapped around an inner stack.
#[derive(Debug, Default)]
pub struct Autograd<Mods> {
    pd: PhantomData<Mods>,
}

/// The autograd layer: it forwards allocation to the inner stack, registers
/// every retrieved buffer in the no-grad pool (buffers are assumed
/// non-differentiable unless marked), and carries the gradient storage and
/// the tape of recorded backward operations.
#[derive(Debug)]
pub struct AutogradModule<Mods> {
    /// The inner layer.
    pub modules: Mods,
    /// Gradient storage and the no-grad registry.
    pub grads: Gradients,
    /// The tape of recorded backward operations.
    pub tape: Tape,
}

impl<D, Mods: Module<D>> Module<D> for Autograd<Mods> {
    type Module = AutogradModule<Mods::Module>;

    open spec fn new_ens(r: AutogradModule<Mods::Module>) -> bool {
        &&& Mods::new_ens(r.modules)
        &&& r.grads.grads_pool.model() == Map::<u64, Seq<i32>>::empty()
        &&& r.grads.no_grads_pool.model() == Map::<u64, Seq<i32>>::empty()
        &&& r.tape.grad_fns@ == Seq::<crate::tape::GradFn>::empty()
    }

    fn new() -> (r: AutogradModule<Mods::Module>) {
        AutogradModule { modules: Mods::new(), grads: Gradients::new(), tape: Tape::new() }
    }
}

impl<Mods: Retrieve<i32>> Retrieve<i32> for AutogradModule<Mods> {
    open spec fn ret_req(self, mem: HostAlloc, len: usize) -> bool {
        Mods::ret_req(self.modules, mem, len)
    }

    open spec fn ret_ens(
        pre: Self,
        pre_mem: HostAlloc,
        len: usize,
        post: Self,
        post_mem: HostAlloc,
        r: CPUPtr<i32>,
    ) -> bool {
        &&& Mods::ret_ens(pre.modules, pre_mem, len, post.modules, post_mem, r)
        &&& post.grads == pre.grads
        &&& post.tape == pre.tape
    }

    open spec fn finish_ens(pre: Self, buf: Buffer<i32>, post: Self) -> bool {
        &&& Mods::finish_ens(pre.modules, buf, post.modules)
        &&& post.grads.no_grads_pool.model() == pre.grads.no_grads_pool.model().insert(
            buf.id_spec().id,
            buf.data.data@,
        )
        &&& post.grads.grads_pool == pre.grads.grads_pool
        &&& post.tape == pre.tape
    }

    fn retrieve(&mut self, mem: &mut HostAlloc, len: usize) -> (r: CPUPtr<i32>) {
        self.modules.retrieve(mem, len)
    }

    fn on_retrieve_finish(&mut self, retrieved_buf: &Buffer<i32>) {
        let id = retrieved_buf.id();
        self.grads.no_grads_pool.add_buf(id, copy_slice(retrieved_buf.data.as_slice()));
        self.modules.on_retrieve_finish(retrieved_buf);
    }
}

/// Stack description for the lazy layer wrapped around an inner stack.
#[derive(Debug, Default)]
pub struct Lazy<Mods> {
    pd: PhantomData<Mods>,
}

/// The lazy layer: retrieval still produces a concrete destination handle
/// (so shape and identity are known), every retrieved buffer is registered
/// in the layer's pool, and deferred operations recorded against the graph
/// replay later against that pool. A buffer dropped before the replay makes
/// the replay fail with the stale-reference error instead of touching freed
/// storage.
#[derive(Debug)]
pub struct LazyModule<Mods> {
    /// The inner layer.
    pub modules: Mods,
    /// The recorded deferred operations.
    pub graph: crate::lazy_graph::LazyGraph,
    /// The pool the graph replays against: the retrieved buffers still
    /// alive, by identity.
    pub outs: HashMap<u64, Vec<i32>>,
}

impl<D, Mods: Module<D>> Module<D> for Lazy<Mods> {
    type Module = LazyModule<Mods::Module>;

    open spec fn new_ens(r: LazyModule<Mods::Module>) -> bool {
        &&& Mods::new_ens(r.modules)
        &&& r.graph.operations@ == Seq::<crate::lazy_graph::Operation>::empty()
        &&& crate::lazy_graph::buffers_model(r.outs@) == Map::<u64, Seq<i32>>::empty()
    }

    fn new() -> (r: LazyModule<Mods::Module>) {
        let r = LazyModule {
            modules: Mods::new(),
            graph: crate::lazy_graph::LazyGraph::new(),
            outs: HashMap::new(),
        };
        proof {
            assert(crate::lazy_graph::buffers_model(r.outs@) =~= Map::<u64, Seq<i32>>::empty());
        }
        r
    }
}

impl<Mods: Retrieve<i32>> Retrieve<i32> for LazyModule<Mods> {
    open spec fn ret_req(self, mem: HostAlloc, len: usize) -> bool {
        Mods::ret_req(self.modules, mem, len)
    }

    open spec fn ret_ens(
        pre: Self,
        pre_mem: HostAlloc,
        len: usize,
        post: Self,
        post_mem: HostAlloc,
        r: CPUPtr<i32>,
    ) -> bool {
        &&& Mods::ret_ens(pre.modules, pre_mem, len, post.modules, post_mem, r)
        &&& post.graph == pre.graph
        &&& post.outs == pre.outs
    }

    open spec fn finish_ens(pre: Self, buf: Buffer<i32>, post: Self) -> bool {
        &&& Mods::finish_ens(pre.modules, buf, post.modules)
        &&& crate::lazy_graph::buffers_model(post.outs@) == crate::lazy_graph::buffers_model(
            pre.outs@,
        ).insert(buf.id_spec().id, buf.data.data@)
        &&& post.graph == pre.graph
    }

    fn retrieve(&mut self, mem: &mut HostAlloc, len: usize) -> (r: CPUPtr<i32>) {
        self.modules.retrieve(mem, len)
    }

    fn on_retrieve_finish(&mut self, retrieved_buf: &Buffer<i32>) {
        crate::lazy_graph::register_buf_copyable(&mut self.outs, retrieved_buf);
        self.modules.on_retrieve_finish(retrieved_buf);
    }
}

impl<Mods> LazyModule<Mods> {
    /// Records a deferred operation over `args` for the next replay.
    pub fn add_operation<P: crate::devices::Parents>(
        &mut self,
        args: P,
        op: crate::lazy_graph::LazyOp,
    )
        ensures
            final(self).graph.operations@.len() == old(self).graph.operations@.len() + 1,
            final(self).graph.operations@.subrange(
                0,
                old(self).graph.operations@.len() as int,
            ) == old(self).graph.operations@,
            final(self).graph.operations@.last().op == op,
            final(self).outs == old(self).outs,
            final(self).modules == old(self).modules,
    {
        self.graph.add_operation(args, op);
    }

    /// Replays the recorded operations in order against the pool of live
    /// buffers, stopping at the first failure; on a full run the graph is
    /// cleared, and after a failure the unexecuted remainder is kept.
    pub fn run(&mut self) -> (r: Result<(), crate::error::DeviceError>)
        ensures
            crate::lazy_graph::buffers_model(final(self).outs@) == crate::lazy_graph::run_graph(
                crate::lazy_graph::buffers_model(old(self).outs@),
                old(self).graph.operations@,
            ).0,
            r == crate::lazy_graph::run_graph(
                crate::lazy_graph::buffers_model(old(self).outs@),
                old(self).graph.operations@,
            ).1,
            r is Ok ==> final(self).graph.operations@ == Seq::<
                crate::lazy_graph::Operation,
            >::empty(),
            r is Err ==> final(self).graph.operations@ == old(self).graph.operations@,
            final(self).modules == old(self).modules,
    {
        let r = self.graph.call_lazily(&mut self.outs);
        if r.is_ok() {
            self.graph.clear();
        }
        r
    }
}

impl<Mods: OnDropBuffer> OnDropBuffer for LazyModule<Mods> {
    open spec fn drop_ens(pre: Self, buf: Buffer<i32>, post: Self) -> bool {
        &&& Mods::drop_ens(pre.modules, buf, post.modules)
        &&& crate::lazy_graph::buffers_model(post.outs@) == crate::lazy_graph::buffers_model(
            pre.outs@,
        ).remove(buf.id_spec().id)
        &&& post.graph == pre.graph
    }

    fn on_drop_buffer(&mut self, mem: &mut HostAlloc, buf: Buffer<i32>) {
        let id = buf.id();
        self.outs.remove(&id.id);
        proof {
            assert(crate::lazy_graph::buffers_model(self.outs@) =~= crate::lazy_graph::buffers_model(
                old(self).outs@,
            ).remove(buf.id_spec().id));
        }
        self.modules.on_drop_buffer(mem, buf);
    }
}

impl<D> crate::features::Setup<D> for Base {

}

impl<D> crate::features::RunModule<D> for Base {

}

impl OnDropBuffer for Base {
    open spec fn drop_ens(pre: Base, buf: Buffer<i32>, post: Base) -> bool {
        true
    }

    fn on_drop_buffer(&mut self, mem: &mut HostAlloc, buf: Buffer<i32>) {
        mem.dispose(buf.data);
    }
}

impl<Mods: OnDropBuffer> OnDropBuffer for CachedModule<Mods> {
    open spec fn drop_ens(pre: Self, buf: Buffer<i32>, post: Self) -> bool {
        &&& Mods::drop_ens(pre.modules, buf, post.modules)
        &&& post.cache == pre.cache
    }

    fn on_drop_buffer(&mut self, mem: &mut HostAlloc, buf: Buffer<i32>) {
        self.modules.on_drop_buffer(mem, buf);
    }
}

impl<Mods: OnDropBuffer> OnDropBuffer for AutogradModule<Mods> {
    open spec fn drop_ens(pre: Self, buf: Buffer<i32>, post: Self) -> bool {
        &&& Mods::drop_ens(pre.modules, buf, post.modules)
        &&& post.grads.no_grads_pool.model() == pre.grads.no_grads_pool.model().remove(
            buf.id_spec().id,
        )
        &&& post.grads.grads_pool == pre.grads.grads_pool
        &&& post.tape == pre.tape
    }

    fn on_drop_buffer(&mut self, mem: &mut HostAlloc, buf: Buffer<i32>) {
        let id = buf.id();
        self.grads.no_grads_pool.remove_buf(id);
        self.modules.on_drop_buffer(mem, buf);
    }
}

} // verus!
