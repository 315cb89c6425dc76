use vstd::prelude::*;

verus! {

/// A plain element type that buffers can hold: it is `Copy` and offers the
/// two constants the core needs, an additive zero (fresh and gradient
/// allocations are zero-initialized) and a one (gradient seeds).
pub trait Unit: Copy + Sized {
    /// The zero value, as seen by contracts.
    spec fn zero_spec() -> Self;

    /// The one value, as seen by contracts.
    spec fn one_spec() -> Self;

    /// Returns the zero value.
    fn zero() -> (r: Self)
        ensures
            r == Self::zero_spec(),
    ;

    /// Returns the one value.
    fn one() -> (r: Self)
        ensures
            r == Self::one_spec(),
    ;
}

impl Unit for i32 {
    open spec fn zero_spec() -> i32 {
        0
    }

    open spec fn one_spec() -> i32 {
        1
    }

    fn zero() -> i32 {
        0
    }

    fn one() -> i32 {
        1
    }
}

impl Unit for i64 {
    open spec fn zero_spec() -> i64 {
        0
    }

    open spec fn one_spec() -> i64 {
        1
    }

    fn zero() -> i64 {
        0
    }

    fn one() -> i64 {
        1
    }
}

impl Unit for u32 {
    open spec fn zero_spec() -> u32 {
        0
    }

    open spec fn one_spec() -> u32 {
        1
    }

    fn zero() -> u32 {
        0
    }

    fn one() -> u32 {
        1
    }
}

impl Unit for u64 {
    open spec fn zero_spec() -> u64 {
        0
    }

    open spec fn one_spec() -> u64 {
        1
    }

    fn zero() -> u64 {
        0
    }

    fn one() -> u64 {
        1
    }
}

impl Unit for u8 {
    open spec fn zero_spec() -> u8 {
        0
    }

    open spec fn one_spec() -> u8 {
        1
    }

    fn zero() -> u8 {
        0
    }

    fn one() -> u8 {
        1
    }
}

impl Unit for usize {
    open spec fn zero_spec() -> usize {
        0
    }

    open spec fn one_spec() -> usize {
        1
    }

    fn zero() -> usize {
        0
    }

    fn one() -> usize {
        1
    }
}

/// A vector of `len` zero elements: the contents of a fresh allocation.
pub fn zero_vec<T: Unit>(len: usize) -> (r: Vec<T>)
    ensures
        r@ == Seq::new(len as nat, |i: int| T::zero_spec()),
{
    let mut out: Vec<T> = Vec::new();
    let mut i: usize = 0;
    while i < len
        invariant
            i <= len,
            out@ == Seq::new(i as nat, |j: int| T::zero_spec()),
        decreases len - i,
    {
        out.push(T::zero());
        i = i + 1;
        proof {
            assert(out@ =~= Seq::new(i as nat, |j: int| T::zero_spec()));
        }
    }
    proof {
        assert(out@ =~= Seq::new(len as nat, |i: int| T::zero_spec()));
    }
    out
}

/// A vector of `len` one elements: the seed a backward pass starts from.
pub fn one_vec<T: Unit>(len: usize) -> (r: Vec<T>)
    ensures
        r@ == Seq::new(len as nat, |i: int| T::one_spec()),
{
    let mut out: Vec<T> = Vec::new();
    let mut i: usize = 0;
    while i < len
        invariant
            i <= len,
            out@ == Seq::new(i as nat, |j: int| T::one_spec()),
        decreases len - i,
    {
        out.push(T::one());
        i = i + 1;
        proof {
            assert(out@ =~= Seq::new(i as nat, |j: int| T::one_spec()));
        }
    }
    proof {
        assert(out@ =~= Seq::new(len as nat, |i: int| T::one_spec()));
    }
    out
}

/// An owned copy of a slice's elements.
pub fn copy_slice<T: Copy>(data: &[T]) -> (r: Vec<T>)
    ensures
        r@ == data@,
{
    let mut out: Vec<T> = Vec::new();
    let mut i: usize = 0;
    while i < data.len()
        invariant
            i <= data@.len(),
            out@ == data@.subrange(0, i as int),
        decreases data@.len() - i,
    {
        out.push(data[i]);
        i = i + 1;
        proof {
            assert(out@ =~= data@.subrange(0, i as int));
        }
    }
    proof {
        assert(out@ =~= data@);
    }
    out
}

} // verus!
