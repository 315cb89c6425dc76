use vstd::prelude::*;

use crate::unit::Unit;

verus! {

/// Placeholder for the OpenCL device when that backend is not compiled in.
#[derive(Debug, Clone, Copy, PartialEq, Eq, Structural)]
pub struct CLDevice;

/// An element type that has a matching OpenCL scalar type, named so that
/// kernel sources can be generated for it.
pub trait GenericOCL: Unit {
    /// The OpenCL type name, as contracts see it.
    spec fn ocl_type_spec() -> Seq<char>;

    /// The OpenCL type name.
    fn as_ocl_type_str() -> (r: &'static str)
        ensures
            r@ == Self::ocl_type_spec(),
    ;
}

impl GenericOCL for i32 {
    open spec fn ocl_type_spec() -> Seq<char> {
        "int"@
    }

    fn as_ocl_type_str() -> &'static str {
        "int"
    }
}

impl GenericOCL for u32 {
    open spec fn ocl_type_spec() -> Seq<char> {
        "uint"@
    }

    fn as_ocl_type_str() -> &'static str {
        "uint"
    }
}

impl GenericOCL for u8 {
    open spec fn ocl_type_spec() -> Seq<char> {
        "uchar"@
    }

    fn as_ocl_type_str() -> &'static str {
        "uchar"
    }
}

impl GenericOCL for i64 {
    open spec fn ocl_type_spec() -> Seq<char> {
        "long"@
    }

    fn as_ocl_type_str() -> &'static str {
        "long"
    }
}

impl GenericOCL for u64 {
    open spec fn ocl_type_spec() -> Seq<char> {
        "ulong"@
    }

    fn as_ocl_type_str() -> &'static str {
        "ulong"
    }
}

/// Whether a sequence is sorted in non-decreasing order.
pub open spec fn sorted(s: Seq<u64>) -> bool {
    forall|i: int, j: int| 0 <= i <= j < s.len() ==> s[i] <= s[j]
}

/// Removes one occurrence of `match_value` from a sorted vector by swapping
/// the last element into its place, which is fast but gives up the order.
/// When the value is absent, returns the index where it would have to be
/// inserted.
pub fn remove_value(values: &mut Vec<u64>, match_value: &u64) -> (r: Result<(), usize>)
    requires
        sorted(old(values)@),
    ensures
        match r {
            Ok(()) => {
                &&& old(values)@.contains(*match_value)
                &&& exists|i: int|
                    0 <= i < old(values)@.len() && old(values)@[i] == *match_value
                        && final(values)@ == old(values)@.update(i, old(values)@.last()).drop_last()
            },
            Err(idx) => {
                &&& !old(values)@.contains(*match_value)
                &&& final(values)@ == old(values)@
                &&& 0 <= idx <= old(values)@.len()
                &&& forall|j: int| 0 <= j < idx ==> old(values)@[j] < *match_value
                &&& forall|j: int|
                    idx <= j < old(values)@.len() ==> old(values)@[j] > *match_value
            },
        },
{
    let mut lo: usize = 0;
    let mut hi: usize = values.len();
    while lo < hi
        invariant
            lo <= hi <= values@.len(),
            values@ == old(values)@,
            sorted(values@),
            forall|j: int| 0 <= j < lo ==> values@[j] < *match_value,
            forall|j: int| hi <= j < values@.len() ==> values@[j] > *match_value,
        decreases hi - lo,
    {
        let mid = lo + (hi - lo) / 2;
        if values[mid] < *match_value {
            lo = mid + 1;
        } else if values[mid] > *match_value {
            hi = mid;
        } else {
            let ghost pre = values@;
            let last = values.swap_remove(mid);
            proof {
                assert(pre.contains(*match_value)) by {
                    assert(pre[mid as int] == *match_value);
                }
            }
            return Ok(());
        }
    }
    proof {
        assert(!values@.contains(*match_value)) by {
            assert forall|j: int| 0 <= j < values@.len() implies values@[j] != *match_value by {
                if j < lo {
                } else {
                }
            }
        }
    }
    Err(lo)
}

} // verus!
