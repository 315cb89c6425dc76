use vstd::prelude::*;

use crate::buffer::Buffer;
use crate::cpu::CPUPtr;
use crate::devices::Alloc;
use crate::flag::AllocFlag;
use crate::unit::zero_vec;
use crate::unit::Unit;

verus! {

/// A two-dimensional view over a buffer: the buffer holds the elements in
/// row-major order, and the dimensions multiply out to its length.
#[derive(Debug)]
pub struct Matrix<T> {
    data: Buffer<T>,
    dims: (usize, usize),
}

/// Elementwise operations a backend offers on matrices.
pub trait BaseOps<T> {
    /// Elementwise sum.
    fn add(&mut self, lhs: &Matrix<T>, rhs: &Matrix<T>) -> Matrix<T>;

    /// Elementwise difference.
    fn sub(&mut self, lhs: &Matrix<T>, rhs: &Matrix<T>) -> Matrix<T>;

    /// Elementwise product.
    fn mul(&mut self, lhs: &Matrix<T>, rhs: &Matrix<T>) -> Matrix<T>;
}

impl<T> Matrix<T> {
    /// The buffer behind this matrix, as contracts see it.
    pub closed spec fn data_spec(self) -> Buffer<T> {
        self.data
    }

    /// The dimensions, as contracts see them.
    pub closed spec fn dims_spec(self) -> (usize, usize) {
        self.dims
    }

    /// The dimensions multiply out to the buffer's length, which the
    /// storage matches.
    pub open spec fn wf(self) -> bool {
        &&& self.data_spec().data.len == self.dims_spec().0 * self.dims_spec().1
        &&& self.data_spec().wf()
    }

    /// The buffer holding this matrix's elements.
    pub fn data(&self) -> (r: &Buffer<T>)
        ensures
            *r == self.data_spec(),
    {
        &self.data
    }

    /// The slot handle of the backing allocation.
    pub fn ptr(&self) -> (r: u64)
        ensures
            r == self.data_spec().data.ptr,
    {
        self.data.data.ptr
    }

    /// The dimensions.
    pub fn dims(&self) -> (r: (usize, usize))
        ensures
            r == self.dims_spec(),
    {
        self.dims
    }

    /// The element count.
    pub fn size(&self) -> (r: usize)
        requires
            self.wf(),
        ensures
            r == self.dims_spec().0 * self.dims_spec().1,
    {
        self.data.data.len
    }

    /// The elements as a host slice, in row-major order.
    pub fn as_cpu_slice(&self) -> (r: &[T])
        ensures
            r@ == self.data_spec().data.data@,
    {
        self.data.data.as_slice()
    }

    /// The elements as a mutable host vector, in row-major order.
    pub fn as_cpu_slice_mut(&mut self) -> (r: &mut Vec<T>)
        ensures
            *r == old(self).data_spec().data.data,
            final(self).data_spec().data.data == *final(r),
            final(self).data_spec().data.ptr == old(self).data_spec().data.ptr,
            final(self).data_spec().data.len == old(self).data_spec().data.len,
            final(self).data_spec().data.flag == old(self).data_spec().data.flag,
            final(self).dims_spec() == old(self).dims_spec(),
    {
        self.data.data.as_mut_slice()
    }
}

impl<T: Unit> Matrix<T> {
    /// Allocates a zero-initialized matrix of the given dimensions on the
    /// device. Empty dimensions are ruled out by contract, as every
    /// allocation of length zero is.
    pub fn new<D: Alloc<T>>(device: &mut D, dims: (usize, usize)) -> (r: Matrix<T>)
        requires
            0 < dims.0 * dims.1 <= usize::MAX,
            D::alloc_req(*old(device)),
        ensures
            r.dims_spec() == dims,
            r.data_spec().data.len == dims.0 * dims.1,
            r.data_spec().data.flag == AllocFlag::Owned,
            r.wf(),
            D::alloc_ens(
                *old(device),
                (dims.0 * dims.1) as usize,
                AllocFlag::Owned,
                *final(device),
                r.data_spec().data,
            ),
    {
        let len = dims.0 * dims.1;
        Matrix { data: Buffer { data: device.allocate(len, AllocFlag::Owned) }, dims }
    }

    /// Wraps an existing allocation handle into a matrix of the given
    /// dimensions; the cache uses this to hand a pooled allocation out
    /// again. The handle keeps cache ownership, so disposing the matrix
    /// never frees the pooled slot.
    pub fn from_raw(ptr: u64, dims: (usize, usize)) -> (r: Matrix<T>)
        requires
            0 < dims.0 * dims.1 <= usize::MAX,
        ensures
            r.dims_spec() == dims,
            r.data_spec().data.ptr == ptr,
            r.data_spec().data.len == dims.0 * dims.1,
            r.data_spec().data.flag == AllocFlag::BorrowedCache,
            r.wf(),
    {
        let len = dims.0 * dims.1;
        Matrix {
            data: Buffer {
                data: CPUPtr {
                    ptr,
                    len,
                    flag: AllocFlag::BorrowedCache,
                    data: zero_vec(len),
                    align: Option::None,
                    size: Option::None,
                },
            },
            dims,
        }
    }
}

} // verus!
