use vstd::prelude::*;

use crate::buffer::Buffer;
use crate::cpu::CPUPtr;
use crate::cpu::HostAlloc;
use crate::features::OnDropBuffer;
use crate::features::Retrieve;
use crate::features::TapeActions;
use crate::flag::AllocFlag;
use crate::id::Id;
use crate::modules::AutogradModule;
use crate::modules::Base;
use crate::modules::Cached;
use crate::modules::CachedModule;
use crate::tape::GradFn;
use crate::tape::Tape;
use crate::unit::Unit;

verus! {

/// Marker for compute devices.
pub trait Device {}

/// The allocation capability a backend offers: allocate raw storage and
/// allocate-and-copy from host data. Each implementor fixes what allocation
/// does to its own state through `alloc_ens` and `alloc_slice_ens`.
pub trait Alloc<T: Unit>: Sized {
    /// When the device can allocate.
    spec fn alloc_req(self) -> bool;

    /// What a raw allocation did to the device and what it returned.
    spec fn alloc_ens(pre: Self, len: usize, flag: AllocFlag, post: Self, r: CPUPtr<T>) -> bool;

    /// What an allocate-and-copy did to the device and what it returned.
    spec fn alloc_slice_ens(pre: Self, data: Seq<T>, flag: AllocFlag, post: Self, r: CPUPtr<
        T,
    >) -> bool;

    /// Allocates `len` zero-initialized elements. Zero-length allocations
    /// are a contract violation.
    fn allocate(&mut self, len: usize, flag: AllocFlag) -> (r: CPUPtr<T>)
        requires
            len > 0,
            Self::alloc_req(*old(self)),
        ensures
            r.len == len,
            r.flag == flag,
            flag != AllocFlag::Wrapper ==> r.wf(),
            Self::alloc_ens(*old(self), len, flag, *final(self), r),
    ;

    /// Allocates storage holding a copy of `data`, which must be non-empty.
    fn alloc_from_slice(&mut self, data: &[T]) -> (r: CPUPtr<T>)
        requires
            data@.len() > 0,
            Self::alloc_req(*old(self)),
        ensures
            r.len == data@.len(),
            r.data@ == data@,
            r.flag == AllocFlag::Owned,
            r.wf(),
            Self::alloc_slice_ens(*old(self), data@, AllocFlag::Owned, *final(self), r),
    ;

    /// Allocates storage taking over the host vector directly; semantically
    /// identical to allocating from a slice of it.
    fn alloc_from_vec(&mut self, data: Vec<T>) -> (r: CPUPtr<T>)
        requires
            data@.len() > 0,
            Self::alloc_req(*old(self)),
        ensures
            r.len == data@.len(),
            r.data@ == data@,
            r.flag == AllocFlag::Owned,
            r.wf(),
            Self::alloc_slice_ens(*old(self), data@, AllocFlag::Owned, *final(self), r),
    ;
}

/// A behavior layer constructor: `Module` turns a stack description such as
/// `Cached<Base>` into the module value the device will hold.
pub trait Module<D> {
    /// The module value this stack description builds.
    type Module;

    /// What holds of a freshly built module stack.
    spec fn new_ens(r: Self::Module) -> bool;

    /// Builds the module stack, innermost layer first.
    fn new() -> (r: Self::Module)
        ensures
            Self::new_ens(r),
    ;
}

/// Anything that can stand as the parent set of a retrieval request: nothing,
/// a buffer, or a tuple of parents. Parents are passed by identity so that
/// recording them never keeps a buffer alive.
pub trait Parents {
    /// The identities named by this parent set.
    spec fn ids_spec(&self) -> Seq<Id>;

    /// The identities named by this parent set.
    fn ids(&self) -> (r: Vec<Id>)
        ensures
            r@ == self.ids_spec(),
    ;
}

impl Parents for () {
    open spec fn ids_spec(&self) -> Seq<Id> {
        Seq::empty()
    }

    fn ids(&self) -> (r: Vec<Id>)
    {
        let r: Vec<Id> = Vec::new();
        proof {
            assert(r@ =~= self.ids_spec());
        }
        r
    }
}

impl<'a, T> Parents for &'a Buffer<T> {
    open spec fn ids_spec(&self) -> Seq<Id> {
        seq![(*self).id_spec()]
    }

    fn ids(&self) -> (r: Vec<Id>)
    {
        let mut r: Vec<Id> = Vec::new();
        r.push(self.id());
        proof {
            assert(r@ =~= self.ids_spec());
        }
        r
    }
}

impl<A: Parents, B: Parents> Parents for (A, B) {
    open spec fn ids_spec(&self) -> Seq<Id> {
        self.0.ids_spec() + self.1.ids_spec()
    }

    fn ids(&self) -> (r: Vec<Id>)
    {
        let mut r = self.0.ids();
        let mut s = self.1.ids();
        r.append(&mut s);
        proof {
            assert(r@ =~= self.ids_spec());
        }
        r
    }
}

impl<A: Parents, B: Parents, C: Parents> Parents for (A, B, C) {
    open spec fn ids_spec(&self) -> Seq<Id> {
        self.0.ids_spec() + self.1.ids_spec() + self.2.ids_spec()
    }

    fn ids(&self) -> (r: Vec<Id>)
    {
        let mut r = self.0.ids();
        let mut s = self.1.ids();
        let mut t = self.2.ids();
        r.append(&mut s);
        r.append(&mut t);
        proof {
            assert(r@ =~= self.ids_spec());
        }
        r
    }
}

/// The device-level retrieval capability: asks the module stack for storage
/// and wraps it into a buffer.
pub trait Retriever<T: Unit>: Sized {
    /// When a retrieval of `len` elements is allowed.
    spec fn retrieve_req(self, len: usize) -> bool;

    /// What the retrieval did to the device and what buffer it produced.
    spec fn retrieve_ens(pre: Self, len: usize, post: Self, r: Buffer<T>) -> bool;

    /// Retrieves a buffer of `len` elements. The request descends through
    /// the module stack, which may reuse a pooled allocation.
    fn retrieve<P: Parents>(&mut self, len: usize, parents: P) -> (r: Buffer<T>)
        requires
            len > 0,
            Self::retrieve_req(*old(self), len),
        ensures
            r.data.len == len,
            r.wf(),
            Self::retrieve_ens(*old(self), len, *final(self), r),
    ;
}

/// The host device: a module stack over host memory. The stack decides how
/// retrieval behaves; the device itself only allocates and keeps the
/// registry of live slots.
#[derive(Debug)]
pub struct CPU<Mods = Base> {
    /// The composed module stack.
    pub modules: Mods,
    /// The host memory backend.
    pub mem: HostAlloc,
}

impl<Mods> Device for CPU<Mods> {

}

impl<SimpleMods> CPU<SimpleMods> {
    /// Builds a device from a stack description, for example
    /// `CPU::<Cached<Base>>::new()`.
    pub fn new<NewMods>() -> (r: CPU<NewMods>) where SimpleMods: Module<CPU<SimpleMods>, Module = NewMods>
        ensures
            <SimpleMods as Module<CPU<SimpleMods>>>::new_ens(r.modules),
            r.mem.next == 0,
            r.mem.alive@ == Map::<u64, usize>::empty(),
            r.mem.wf(),
    {
        CPU { modules: SimpleMods::new(), mem: HostAlloc::new() }
    }

    /// The default host device: allocation caching over the base layer.
    pub fn default() -> (r: CPU<CachedModule<Base>>)
        ensures
            <Cached<Base> as Module<CPU<Cached<Base>>>>::new_ens(r.modules),
            r.mem.next == 0,
            r.mem.alive@ == Map::<u64, usize>::empty(),
            r.mem.wf(),
    {
        CPU::<Cached<Base>>::new()
    }
}

impl<Mods> crate::cache::CacheReturn for CPU<CachedModule<Mods>> {
    open spec fn cache_spec(self) -> crate::cache::Cache {
        self.modules.cache
    }

    open spec fn with_cache_spec(self, c: crate::cache::Cache) -> Self {
        CPU { modules: CachedModule { modules: self.modules.modules, cache: c }, mem: self.mem }
    }

    fn cache(&mut self) -> (r: &mut crate::cache::Cache) {
        &mut self.modules.cache
    }
}

impl<Mods> crate::cache::RawConv for CPU<Mods> {

}

impl<Mods> crate::features::HasModules<Mods> for CPU<Mods> {
    fn modules(&self) -> &Mods {
        &self.modules
    }
}

impl<Mods> crate::features::Run for CPU<crate::modules::LazyModule<Mods>> {
    fn run(&mut self) -> Result<(), crate::error::DeviceError> {
        self.modules.run()
    }
}

impl<Mods: OnDropBuffer> CPU<Mods> {
    /// Runs the disposal chain for a dropped buffer: every layer releases
    /// or retains its bookkeeping, and the backend slot is released only
    /// when the buffer owned it.
    pub fn on_drop_buffer(&mut self, buf: Buffer<i32>)
        ensures
            Mods::drop_ens(old(self).modules, buf, final(self).modules),
            buf.data.flag.is_owning() ==> final(self).mem.alive@ == old(self).mem.alive@.remove(
                buf.data.ptr,
            ),
            !buf.data.flag.is_owning() ==> final(self).mem.alive@ == old(self).mem.alive@,
            final(self).mem.next == old(self).mem.next,
    {
        self.modules.on_drop_buffer(&mut self.mem, buf)
    }
}

impl<Mods> TapeActions for CPU<AutogradModule<Mods>> {
    open spec fn tape_spec(self) -> Option<Tape> {
        Some(self.modules.tape)
    }

    open spec fn add_grad_fn_ens(pre: Self, grad_fn: GradFn, post: Self) -> bool {
        &&& post.modules.tape.grad_fns@ == pre.modules.tape.grad_fns@.push(grad_fn)
        &&& post.modules.modules == pre.modules.modules
        &&& post.modules.grads == pre.modules.grads
        &&& post.mem == pre.mem
    }

    fn tape(&self) -> (r: Option<&Tape>) {
        Some(&self.modules.tape)
    }

    fn add_grad_fn(&mut self, grad_fn: GradFn) {
        self.modules.tape.add_grad_fn(grad_fn)
    }
}

impl TapeActions for CPU<Base> {
    open spec fn tape_spec(self) -> Option<Tape> {
        Option::None
    }

    open spec fn add_grad_fn_ens(pre: Self, grad_fn: GradFn, post: Self) -> bool {
        post == pre
    }

    fn tape(&self) -> (r: Option<&Tape>) {
        Option::None
    }

    fn add_grad_fn(&mut self, grad_fn: GradFn) {
    }
}

impl<T: Unit> Alloc<T> for HostAlloc {
    open spec fn alloc_req(self) -> bool {
        self.can_alloc() && self.wf()
    }

    open spec fn alloc_ens(pre: Self, len: usize, flag: AllocFlag, post: Self, r: CPUPtr<
        T,
    >) -> bool {
        &&& r.ptr == pre.next
        &&& r.data@ == Seq::new(len as nat, |i: int| T::zero_spec())
        &&& post.next == pre.next + 1
        &&& post.alive@ == pre.alive@.insert(r.ptr, len)
        &&& post.wf()
    }

    open spec fn alloc_slice_ens(pre: Self, data: Seq<T>, flag: AllocFlag, post: Self, r: CPUPtr<
        T,
    >) -> bool {
        &&& r.ptr == pre.next
        &&& post.next == pre.next + 1
        &&& post.alive@ == pre.alive@.insert(r.ptr, data.len() as usize)
        &&& post.wf()
    }

    fn allocate(&mut self, len: usize, flag: AllocFlag) -> (r: CPUPtr<T>)
    {
        HostAlloc::allocate(self, len, flag)
    }

    fn alloc_from_slice(&mut self, data: &[T]) -> (r: CPUPtr<T>)
    {
        HostAlloc::alloc_from_slice(self, data, AllocFlag::Owned)
    }

    fn alloc_from_vec(&mut self, data: Vec<T>) -> (r: CPUPtr<T>)
    {
        HostAlloc::alloc_from_vec(self, data, AllocFlag::Owned)
    }
}

impl<T: Unit, Mods> Alloc<T> for CPU<Mods> {
    open spec fn alloc_req(self) -> bool {
        self.mem.can_alloc() && self.mem.wf()
    }

    open spec fn alloc_ens(pre: Self, len: usize, flag: AllocFlag, post: Self, r: CPUPtr<
        T,
    >) -> bool {
        &&& r.ptr == pre.mem.next
        &&& r.data@ == Seq::new(len as nat, |i: int| T::zero_spec())
        &&& post.mem.next == pre.mem.next + 1
        &&& post.mem.alive@ == pre.mem.alive@.insert(r.ptr, len)
        &&& post.mem.wf()
        &&& post.modules == pre.modules
    }

    open spec fn alloc_slice_ens(pre: Self, data: Seq<T>, flag: AllocFlag, post: Self, r: CPUPtr<
        T,
    >) -> bool {
        &&& r.ptr == pre.mem.next
        &&& post.mem.next == pre.mem.next + 1
        &&& post.mem.alive@ == pre.mem.alive@.insert(r.ptr, data.len() as usize)
        &&& post.mem.wf()
        &&& post.modules == pre.modules
    }

    fn allocate(&mut self, len: usize, flag: AllocFlag) -> (r: CPUPtr<T>)
    {
        self.mem.allocate(len, flag)
    }

    fn alloc_from_slice(&mut self, data: &[T]) -> (r: CPUPtr<T>)
    {
        self.mem.alloc_from_slice(data, AllocFlag::Owned)
    }

    fn alloc_from_vec(&mut self, data: Vec<T>) -> (r: CPUPtr<T>)
    {
        self.mem.alloc_from_vec(data, AllocFlag::Owned)
    }
}

impl<T: Unit, Mods: Retrieve<T>> Retriever<T> for CPU<Mods> {
    open spec fn retrieve_req(self, len: usize) -> bool {
        &&& self.mem.wf()
        &&& self.mem.can_alloc()
        &&& Mods::ret_req(self.modules, self.mem, len)
    }

    open spec fn retrieve_ens(pre: Self, len: usize, post: Self, r: Buffer<T>) -> bool {
        exists|mid: Mods|
            {
                &&& #[trigger] Mods::ret_ens(pre.modules, pre.mem, len, mid, post.mem, r.data)
                &&& Mods::finish_ens(mid, r, post.modules)
            }
    }

    fn retrieve<P: Parents>(&mut self, len: usize, parents: P) -> (r: Buffer<T>)
    {
        let data = self.modules.retrieve(&mut self.mem, len);
        let ghost mid = self.modules;
        let buf = Buffer { data };
        self.modules.on_retrieve_finish(&buf);
        proof {
            assert(Mods::ret_ens(
                old(self).modules,
                old(self).mem,
                len,
                mid,
                self.mem,
                buf.data,
            ));
            assert(Mods::finish_ens(mid, buf, self.modules));
        }
        buf
    }
}

} // verus!
