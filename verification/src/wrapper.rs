use vstd::prelude::*;

use crate::cpu::CPUPtr;
use crate::flag::AllocFlag;
use crate::id::Id;
use crate::modules::Base;

verus! {

/// How a layer wraps the raw storage it hands upward: each layer chooses a
/// wrapper type and the two conversions between wrapper and base storage.
pub trait WrappedData {
    /// The wrapper this layer puts around base storage.
    type Wrap;

    /// What wrapping did.
    spec fn wrap_ens(self, base: CPUPtr<i32>, w: Self::Wrap) -> bool;

    /// The base storage a wrapper stands for.
    spec fn base_of_spec(self, w: Self::Wrap) -> CPUPtr<i32>;

    /// Wraps base storage.
    fn wrap_in_base(&self, base: CPUPtr<i32>) -> (w: Self::Wrap)
        ensures
            self.wrap_ens(base, w),
    ;

    /// Reads the base storage out of a wrapper.
    fn wrapped_as_base<'a>(&self, wrap: &'a Self::Wrap) -> (r: &'a CPUPtr<i32>)
        ensures
            *r == self.base_of_spec(*wrap),
    ;
}

impl WrappedData for Base {
    type Wrap = CPUPtr<i32>;

    open spec fn wrap_ens(self, base: CPUPtr<i32>, w: CPUPtr<i32>) -> bool {
        w == base
    }

    open spec fn base_of_spec(self, w: CPUPtr<i32>) -> CPUPtr<i32> {
        w
    }

    fn wrap_in_base(&self, base: CPUPtr<i32>) -> (w: CPUPtr<i32>) {
        base
    }

    fn wrapped_as_base<'a>(&self, wrap: &'a CPUPtr<i32>) -> (r: &'a CPUPtr<i32>) {
        wrap
    }
}

/// The wrapper the lazy layer puts around storage: the storage may be
/// absent while the allocation is deferred, and the identity the deferred
/// graph knows it by is carried alongside.
#[derive(Debug)]
pub struct LazyWrapper<Data> {
    /// The wrapped storage, present once materialized.
    pub data: Option<Data>,
    /// The identity deferred operations refer to.
    pub id: Option<Id>,
}

impl<Data> LazyWrapper<Data> {
    /// The identity of this wrapper. Asking before one was assigned is a
    /// caller error, ruled out by contract.
    pub fn id(&self) -> (r: Id)
        requires
            self.id is Some,
        ensures
            r == self.id.unwrap(),
    {
        match &self.id {
            Some(id) => *id,
            Option::None => unreached(),
        }
    }

    /// Whether the deferred storage has been materialized.
    pub fn is_materialized(&self) -> (r: bool)
        ensures
            r == (self.data is Some),
    {
        self.data.is_some()
    }
}

impl<T> LazyWrapper<CPUPtr<T>> {
    /// The number of elements the wrapped storage stands for. Asking while
    /// the allocation is still deferred is a caller error, ruled out by
    /// contract.
    pub fn size(&self) -> (r: usize)
        requires
            self.data is Some,
        ensures
            r == self.data.unwrap().len,
    {
        match &self.data {
            Some(data) => data.len,
            Option::None => unreached(),
        }
    }

    /// The ownership flag of the wrapped storage. Asking while the
    /// allocation is still deferred is a caller error, ruled out by
    /// contract.
    pub fn flag(&self) -> (r: AllocFlag)
        requires
            self.data is Some,
        ensures
            r == self.data.unwrap().flag,
    {
        match &self.data {
            Some(data) => data.flag,
            Option::None => unreached(),
        }
    }
}

} // verus!
