use vstd::prelude::*;

use crate::cpu::HostAlloc;
use crate::id::Node;
use crate::matrix::Matrix;
use crate::unit::Unit;
use std::collections::HashMap;

verus! {

broadcast use vstd::std_specs::hash::group_hash_axioms;

/// A type-erased record of a pooled host allocation: just its slot handle.
#[derive(Debug, Clone, Copy, PartialEq, Eq, Structural)]
pub struct CpuPtr(pub u64);

/// The matrix-level allocation cache of the flat design: pooled allocations
/// with their dimensions, keyed by the counter index, plus the counter that
/// produces those indices.
#[derive(Debug)]
pub struct CPUCache {
    /// Pooled allocations with their dimensions, keyed by counter index.
    pub nodes: HashMap<usize, (CpuPtr, (usize, usize))>,
    /// The retrieval counter.
    pub count: usize,
}

impl CPUCache {
    /// An empty cache with the counter at zero.
    pub fn new() -> (r: CPUCache)
        ensures
            r.count == 0,
            r.nodes@ == Map::<usize, (CpuPtr, (usize, usize))>::empty(),
    {
        CPUCache { nodes: HashMap::new(), count: 0 }
    }

    /// Allocates a fresh matrix for `node` and pools it under the node's
    /// index with the given dimensions.
    pub fn add_node<T: Unit>(&mut self, device: &mut HostAlloc, node: Node, dims: (usize, usize)) -> (r:
        Matrix<T>)
        requires
            0 < dims.0 * dims.1 <= usize::MAX,
            old(device).can_alloc(),
            old(device).wf(),
        ensures
            r.dims_spec() == dims,
            r.data_spec().data.ptr == old(device).next,
            r.wf(),
            final(self).nodes@ == old(self).nodes@.insert(
                node.idx,
                (CpuPtr(old(device).next), dims),
            ),
            final(self).count == old(self).count,
            final(device).next == old(device).next + 1,
            final(device).wf(),
    {
        let out: Matrix<T> = Matrix::new(device, dims);
        self.nodes.insert(node.idx, (CpuPtr(out.ptr()), out.dims()));
        out
    }

    /// Retrieves the pooled matrix for the current counter value, or
    /// allocates and pools a fresh one; a pooled entry with different
    /// dimensions is a forced miss. The counter advances exactly once
    /// either way.
    pub fn get<T: Unit>(&mut self, device: &mut HostAlloc, out_dims: (usize, usize)) -> (r: Matrix<
        T,
    >)
        requires
            0 < out_dims.0 * out_dims.1 <= usize::MAX,
            old(self).count < usize::MAX,
            old(device).can_alloc(),
            old(device).wf(),
        ensures
            r.dims_spec() == out_dims,
            r.wf(),
            final(self).count == old(self).count + 1,
            ({
                let hit = old(self).nodes@.contains_key(old(self).count) && old(self).nodes@[old(
                    self,
                ).count].1 == out_dims;
                if hit {
                    &&& r.data_spec().data.ptr == old(self).nodes@[old(self).count].0.0
                    &&& final(self).nodes@ == old(self).nodes@
                    &&& *final(device) == *old(device)
                } else {
                    &&& r.data_spec().data.ptr == old(device).next
                    &&& final(self).nodes@ == old(self).nodes@.insert(
                        old(self).count,
                        (CpuPtr(old(device).next), out_dims),
                    )
                    &&& final(device).next == old(device).next + 1
                }
            }),
            final(device).wf(),
    {
        let node = Node::new(&mut self.count, out_dims.0 * out_dims.1);
        let pooled = match self.nodes.get(&node.idx) {
            Option::Some(entry) => {
                if entry.1.0 == out_dims.0 && entry.1.1 == out_dims.1 {
                    Option::Some(entry.0.0)
                } else {
                    Option::None
                }
            },
            Option::None => Option::None,
        };
        match pooled {
            Option::Some(ptr) => Matrix::from_raw(ptr, out_dims),
            Option::None => self.add_node(device, node, out_dims),
        }
    }
}


impl Default for CPUCache {
    fn default() -> (r: CPUCache)
        ensures
            r.count == 0,
            r.nodes@ == Map::<usize, (CpuPtr, (usize, usize))>::empty(),
    {
        CPUCache::new()
    }
}

} // verus!
