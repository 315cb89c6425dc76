use vstd::prelude::*;

use crate::buffer::Buffer;
use crate::cpu::CPUPtr;
use crate::cpu::HostAlloc;
use crate::flag::AllocFlag;
use crate::id::Ident;
use crate::id::Node;
use crate::unit::Unit;
use crate::unit::zero_vec;
use std::collections::HashMap;

verus! {

broadcast use vstd::std_specs::hash::group_hash_axioms;

/// A cache-held record of an allocation: the slot handle and the length it
/// was allocated with.
#[derive(Debug, Clone, Copy, PartialEq, Eq, Structural)]
pub struct RawCpuBuf {
    /// The slot handle of the pooled allocation.
    pub ptr: u64,
    /// The length the allocation was made with.
    pub len: usize,
}

/// The allocation cache: a map from the positional identity index to the
/// pooled allocation, plus the explicit retrieval counter that produces
/// those indices. At most one entry lives per index; a request whose length
/// differs from the pooled entry's is a forced miss, never a reuse of a
/// mismatched allocation.
#[derive(Debug)]
pub struct Cache {
    /// Pooled allocations, keyed by the counter index of their slot.
    pub nodes: HashMap<usize, RawCpuBuf>,
    /// The retrieval counter; advances once per retrieval, hit or miss.
    pub count: usize,
}

/// Whether a request of `len` elements at counter value `count` hits the
/// pool.
pub open spec fn hit_at(nodes: Map<usize, RawCpuBuf>, count: usize, len: usize) -> bool {
    nodes.contains_key(count) && nodes[count].len == len
}

/// The slot handle a retrieval returns: the pooled one on a hit, a fresh one
/// on a miss.
pub open spec fn step_ptr(nodes: Map<usize, RawCpuBuf>, count: usize, next: u64, len: usize) -> u64 {
    if hit_at(nodes, count, len) {
        nodes[count].ptr
    } else {
        next
    }
}

/// The pool after a retrieval: unchanged on a hit, extended by the fresh
/// allocation on a miss.
pub open spec fn step_nodes(nodes: Map<usize, RawCpuBuf>, count: usize, next: u64, len: usize) -> Map<
    usize,
    RawCpuBuf,
> {
    if hit_at(nodes, count, len) {
        nodes
    } else {
        nodes.insert(count, RawCpuBuf { ptr: next, len })
    }
}

/// The backend's next fresh handle after a retrieval.
pub open spec fn step_next(nodes: Map<usize, RawCpuBuf>, count: usize, next: u64, len: usize) -> u64 {
    if hit_at(nodes, count, len) {
        next
    } else {
        (next + 1) as u64
    }
}

/// The sequence of slot handles a run of retrievals returns, one per
/// requested length.
pub open spec fn run_ptrs(
    nodes: Map<usize, RawCpuBuf>,
    count: usize,
    next: u64,
    lens: Seq<usize>,
) -> Seq<u64>
    decreases lens.len(),
{
    if lens.len() == 0 {
        Seq::empty()
    } else {
        seq![step_ptr(nodes, count, next, lens[0])] + run_ptrs(
            step_nodes(nodes, count, next, lens[0]),
            (count + 1) as usize,
            step_next(nodes, count, next, lens[0]),
            lens.drop_first(),
        )
    }
}

/// The pool after a run of retrievals.
pub open spec fn run_nodes(
    nodes: Map<usize, RawCpuBuf>,
    count: usize,
    next: u64,
    lens: Seq<usize>,
) -> Map<usize, RawCpuBuf>
    decreases lens.len(),
{
    if lens.len() == 0 {
        nodes
    } else {
        run_nodes(
            step_nodes(nodes, count, next, lens[0]),
            (count + 1) as usize,
            step_next(nodes, count, next, lens[0]),
            lens.drop_first(),
        )
    }
}

/// The backend's next fresh handle after a run of retrievals.
pub open spec fn run_next(
    nodes: Map<usize, RawCpuBuf>,
    count: usize,
    next: u64,
    lens: Seq<usize>,
) -> u64
    decreases lens.len(),
{
    if lens.len() == 0 {
        next
    } else {
        run_next(
            step_nodes(nodes, count, next, lens[0]),
            (count + 1) as usize,
            step_next(nodes, count, next, lens[0]),
            lens.drop_first(),
        )
    }
}

/// Every pooled handle was previously handed out by a backend whose next
/// fresh handle is `next`.
pub open spec fn nodes_wf(nodes: Map<usize, RawCpuBuf>, next: u64) -> bool {
    forall|k: usize| #[trigger] nodes.contains_key(k) ==> nodes[k].ptr < next
}

impl Cache {
    /// Every pooled handle was previously handed out by the backend.
    pub open spec fn wf(self, mem: HostAlloc) -> bool {
        nodes_wf(self.nodes@, mem.next)
    }

    /// An empty cache with the counter at zero.
    pub fn new() -> (r: Cache)
        ensures
            r.count == 0,
            r.nodes@ == Map::<usize, RawCpuBuf>::empty(),
    {
        Cache { nodes: HashMap::new(), count: 0 }
    }

    /// Unconditionally allocates a fresh entry for `node`, stores it in the
    /// pool under the node's index, and advances the counter; the next
    /// retrieval at that index and length will return this entry.
    pub fn add_node<T: Unit>(&mut self, device: &mut HostAlloc, node: Ident) -> (r: Buffer<T>)
        requires
            node.len > 0,
            old(self).count < usize::MAX,
            old(device).can_alloc(),
            old(device).wf(),
            old(self).wf(*old(device)),
        ensures
            r.data.ptr == old(device).next,
            r.data.len == node.len,
            r.data.flag == AllocFlag::BorrowedCache,
            r.data.data@ == Seq::new(node.len as nat, |i: int| T::zero_spec()),
            r.wf(),
            final(self).nodes@ == old(self).nodes@.insert(
                node.idx,
                RawCpuBuf { ptr: old(device).next, len: node.len },
            ),
            final(self).count == old(self).count + 1,
            final(device).next == old(device).next + 1,
            final(device).alive@ == old(device).alive@.insert(old(device).next, node.len),
            final(device).wf(),
            final(self).wf(*final(device)),
    {
        let data: CPUPtr<T> = device.allocate(node.len, AllocFlag::BorrowedCache);
        self.nodes.insert(node.idx, RawCpuBuf { ptr: data.ptr, len: node.len });
        self.count = self.count + 1;
        Buffer { data }
    }

    /// Retrieves the pooled allocation for the current counter value, or
    /// allocates and pools a fresh one. A pooled entry of a different length
    /// is a forced miss. The counter advances exactly once either way, so
    /// that subsequent iterations realign.
    pub fn get<T: Unit>(&mut self, device: &mut HostAlloc, len: usize) -> (r: Buffer<T>)
        requires
            len > 0,
            old(self).count < usize::MAX,
            old(device).can_alloc(),
            old(device).wf(),
            old(self).wf(*old(device)),
        ensures
            r.data.ptr == step_ptr(old(self).nodes@, old(self).count, old(device).next, len),
            r.data.len == len,
            r.data.flag == AllocFlag::BorrowedCache,
            r.data.data@ == Seq::new(len as nat, |i: int| T::zero_spec()),
            r.wf(),
            final(self).nodes@ == step_nodes(
                old(self).nodes@,
                old(self).count,
                old(device).next,
                len,
            ),
            final(self).count == old(self).count + 1,
            final(device).next == step_next(old(self).nodes@, old(self).count, old(device).next, len),
            hit_at(old(self).nodes@, old(self).count, len) ==> final(device).alive@ == old(
                device,
            ).alive@,
            !hit_at(old(self).nodes@, old(self).count, len) ==> final(device).alive@ == old(
                device,
            ).alive@.insert(old(device).next, len),
            final(device).wf(),
            final(self).wf(*final(device)),
    {
        let node = Ident::new(&self.count, len);
        let hit = match self.nodes.get(&node.idx) {
            Option::Some(entry) => {
                if entry.len == len {
                    Option::Some(entry.ptr)
                } else {
                    Option::None
                }
            },
            Option::None => Option::None,
        };
        match hit {
            Option::Some(ptr) => {
                self.count = self.count + 1;
                Buffer {
                    data: CPUPtr {
                        ptr,
                        len,
                        flag: AllocFlag::BorrowedCache,
                        data: zero_vec(len),
                        align: Option::None,
                        size: Option::None,
                    },
                }
            },
            Option::None => self.add_node(device, node),
        }
    }
}

/// After a run, each visited index holds exactly the handle the run
/// returned there, under the length that was requested there.
pub open spec fn window_pinned(
    nodes: Map<usize, RawCpuBuf>,
    count: usize,
    next: u64,
    lens: Seq<usize>,
) -> bool {
    forall|k: usize|
        count <= k < count + lens.len() ==> (#[trigger] run_nodes(
            nodes,
            count,
            next,
            lens,
        ).contains_key(k)) && run_nodes(nodes, count, next, lens)[k] == (RawCpuBuf {
            ptr: run_ptrs(nodes, count, next, lens)[k - count],
            len: lens[k - count],
        })
}

/// Access to the allocation cache a device carries.
pub trait CacheReturn: Sized {
    /// The cache, as contracts see it.
    spec fn cache_spec(self) -> Cache;

    /// The device with its cache replaced.
    spec fn with_cache_spec(self, c: Cache) -> Self;

    /// The device's allocation cache.
    fn cache(&mut self) -> (r: &mut Cache)
        ensures
            *r == old(self).cache_spec(),
            *final(self) == old(self).with_cache_spec(*final(r)),
    ;
}

/// Conversion between typed allocation handles and the type-erased records
/// the cache stores.
pub trait RawConv {
    /// Erases a typed handle into a cache record.
    fn construct<T: Unit>(ptr: &CPUPtr<T>, len: usize, node: Node) -> (r: RawCpuBuf)
        ensures
            r.ptr == ptr.ptr,
            r.len == len,
    {
        RawCpuBuf { ptr: ptr.ptr, len }
    }

    /// Rebuilds a typed, cache-owned handle from a cache record.
    fn destruct<T: Unit>(ct: &RawCpuBuf) -> (r: CPUPtr<T>)
        ensures
            r.ptr == ct.ptr,
            r.len == ct.len,
            r.flag == AllocFlag::BorrowedCache,
            r.data@ == Seq::new(ct.len as nat, |i: int| T::zero_spec()),
            r.wf(),
    {
        CPUPtr {
            ptr: ct.ptr,
            len: ct.len,
            flag: AllocFlag::BorrowedCache,
            data: zero_vec(ct.len),
            align: Option::None,
            size: Option::None,
        }
    }
}

/// A run of retrievals returns exactly one handle per requested length.
pub proof fn lemma_run_ptrs_len(
    nodes: Map<usize, RawCpuBuf>,
    count: usize,
    next: u64,
    lens: Seq<usize>,
)
    ensures
        run_ptrs(nodes, count, next, lens).len() == lens.len(),
    decreases lens.len(),
{
    if lens.len() == 0 {
    } else {
        lemma_run_ptrs_len(
            step_nodes(nodes, count, next, lens[0]),
            (count + 1) as usize,
            step_next(nodes, count, next, lens[0]),
            lens.drop_first(),
        );
    }
}

/// Bookkeeping facts about a run of retrievals: it returns one handle per
/// request; the backend's handle counter never decreases and grows by at
/// most one per request; well-formedness is preserved; entries outside the
/// visited index window are untouched; the visited window holds exactly the
/// returned handles with the requested lengths; and every returned handle
/// was issued before the final counter value.
pub proof fn lemma_run_properties(
    nodes: Map<usize, RawCpuBuf>,
    count: usize,
    next: u64,
    lens: Seq<usize>,
)
    requires
        count + lens.len() <= usize::MAX,
        next + lens.len() <= u64::MAX,
        nodes_wf(nodes, next),
    ensures
        run_ptrs(nodes, count, next, lens).len() == lens.len(),
        next <= run_next(nodes, count, next, lens),
        run_next(nodes, count, next, lens) <= next + lens.len(),
        nodes_wf(run_nodes(nodes, count, next, lens), run_next(nodes, count, next, lens)),
        forall|k: usize|
            k < count || k >= count + lens.len() ==> ((#[trigger] run_nodes(
                nodes,
                count,
                next,
                lens,
            ).contains_key(k)) <==> nodes.contains_key(k)),
        forall|k: usize|
            (k < count || k >= count + lens.len()) && nodes.contains_key(k) ==> (#[trigger] run_nodes(
                nodes,
                count,
                next,
                lens,
            )[k]) == nodes[k],
        window_pinned(nodes, count, next, lens),
        forall|i: int|
            0 <= i < lens.len() ==> (#[trigger] run_ptrs(nodes, count, next, lens)[i]) < run_next(
                nodes,
                count,
                next,
                lens,
            ),
    decreases lens.len(),
{
    if lens.len() == 0 {
        assert(window_pinned(nodes, count, next, lens));
    } else {
        let l0 = lens[0];
        let p0 = step_ptr(nodes, count, next, l0);
        let n0 = step_nodes(nodes, count, next, l0);
        let x0 = step_next(nodes, count, next, l0);
        assert(nodes_wf(n0, x0));
        lemma_run_properties(n0, (count + 1) as usize, x0, lens.drop_first());
        let rest = lens.drop_first();
        let m = run_nodes(nodes, count, next, lens);
        let ptrs = run_ptrs(nodes, count, next, lens);
        let tail = run_ptrs(n0, (count + 1) as usize, x0, rest);
        assert(ptrs == seq![p0] + tail);
        assert(ptrs[0] == p0);
        assert(n0[count] == (RawCpuBuf { ptr: p0, len: l0 }));
        assert(m == run_nodes(n0, (count + 1) as usize, x0, rest));
        assert forall|k: usize| count <= k < count + lens.len() implies (#[trigger] run_nodes(
            nodes,
            count,
            next,
            lens,
        ).contains_key(k)) && run_nodes(nodes, count, next, lens)[k] == (RawCpuBuf {
            ptr: run_ptrs(nodes, count, next, lens)[k - count],
            len: lens[k - count],
        }) by {
            if k == count {
                assert(run_nodes(n0, (count + 1) as usize, x0, rest).contains_key(k)
                    <==> n0.contains_key(k));
                assert(n0.contains_key(k));
                assert(run_nodes(n0, (count + 1) as usize, x0, rest)[k] == n0[k]);
                assert(m.contains_key(k) && m[k] == n0[count]);
            } else {
                assert(run_nodes(n0, (count + 1) as usize, x0, rest).contains_key(k));
                assert(run_nodes(n0, (count + 1) as usize, x0, rest)[k] == (RawCpuBuf {
                    ptr: run_ptrs(n0, (count + 1) as usize, x0, rest)[k - (count + 1)],
                    len: rest[k - (count + 1)],
                }));
                assert(rest[k - count - 1] == lens[k - count]);
                assert(tail[k - count - 1] == ptrs[k - count]);
            }
        }
        assert(window_pinned(nodes, count, next, lens));
        assert forall|i: int| 0 <= i < lens.len() implies (#[trigger] ptrs[i]) < run_next(
            nodes,
            count,
            next,
            lens,
        ) by {
            if i > 0 {
                assert(tail[i - 1] == ptrs[i]);
            }
        }
    }
}

/// Cache hit determinism: once a sequence of retrievals has run, resetting
/// the counter to its pre-run value and re-running the same sequence of
/// lengths returns exactly the same handles, allocates nothing new, and
/// leaves the pool unchanged.
pub proof fn lemma_cache_replay(
    nodes: Map<usize, RawCpuBuf>,
    count: usize,
    next: u64,
    lens: Seq<usize>,
)
    requires
        count + lens.len() <= usize::MAX,
        next + lens.len() <= u64::MAX,
        nodes_wf(nodes, next),
    ensures
        run_ptrs(
            run_nodes(nodes, count, next, lens),
            count,
            run_next(nodes, count, next, lens),
            lens,
        ) == run_ptrs(nodes, count, next, lens),
        run_nodes(
            run_nodes(nodes, count, next, lens),
            count,
            run_next(nodes, count, next, lens),
            lens,
        ) == run_nodes(nodes, count, next, lens),
        run_next(
            run_nodes(nodes, count, next, lens),
            count,
            run_next(nodes, count, next, lens),
            lens,
        ) == run_next(nodes, count, next, lens),
    decreases lens.len(),
{
    if lens.len() == 0 {
    } else {
        let l0 = lens[0];
        let p0 = step_ptr(nodes, count, next, l0);
        let n0 = step_nodes(nodes, count, next, l0);
        let x0 = step_next(nodes, count, next, l0);
        let rest = lens.drop_first();
        let nodes1 = run_nodes(nodes, count, next, lens);
        let next1 = run_next(nodes, count, next, lens);
        assert(nodes_wf(n0, x0));
        lemma_run_properties(n0, (count + 1) as usize, x0, rest);
        // the first run pinned the entry at `count`, and the rest of the run
        // left every index below `count + 1` alone
        assert(n0[count] == (RawCpuBuf { ptr: p0, len: l0 }));
        assert(nodes1.contains_key(count) && nodes1[count] == n0[count]);
        assert(hit_at(nodes1, count, l0));
        assert(step_ptr(nodes1, count, next1, l0) == p0);
        assert(step_nodes(nodes1, count, next1, l0) == nodes1);
        assert(step_next(nodes1, count, next1, l0) == next1);
        lemma_cache_replay(n0, (count + 1) as usize, x0, rest);
        assert(run_ptrs(nodes1, count, next1, lens) == seq![p0] + run_ptrs(
            nodes1,
            (count + 1) as usize,
            next1,
            rest,
        ));
        assert(run_ptrs(nodes, count, next, lens) == seq![p0] + run_ptrs(
            n0,
            (count + 1) as usize,
            x0,
            rest,
        ));
    }
}

/// Without a counter reset, a further run over indices the pool has never
/// seen misses every time: it returns consecutive fresh handles, each of
/// which is distinct from every handle the backend issued before.
pub proof fn lemma_cache_fresh_when_ahead(
    nodes: Map<usize, RawCpuBuf>,
    count: usize,
    next: u64,
    lens: Seq<usize>,
)
    requires
        count + lens.len() <= usize::MAX,
        next + lens.len() <= u64::MAX,
        forall|k: usize| k >= count ==> !(#[trigger] nodes.contains_key(k)),
    ensures
        forall|i: int|
            0 <= i < lens.len() ==> (#[trigger] run_ptrs(nodes, count, next, lens)[i]) == next + i,
        run_next(nodes, count, next, lens) == next + lens.len(),
    decreases lens.len(),
{
    if lens.len() == 0 {
    } else {
        let l0 = lens[0];
        let n0 = step_nodes(nodes, count, next, l0);
        let x0 = step_next(nodes, count, next, l0);
        let rest = lens.drop_first();
        assert(!hit_at(nodes, count, l0));
        assert(forall|k: usize| k >= count + 1 ==> !(#[trigger] n0.contains_key(k)));
        lemma_cache_fresh_when_ahead(n0, (count + 1) as usize, x0, rest);
        lemma_run_ptrs_len(n0, (count + 1) as usize, x0, rest);
        let ptrs = run_ptrs(nodes, count, next, lens);
        let tail = run_ptrs(n0, (count + 1) as usize, x0, rest);
        assert(ptrs == seq![next] + tail);
        assert forall|i: int| 0 <= i < lens.len() implies (#[trigger] ptrs[i]) == next + i by {
            if i > 0 {
                assert(run_ptrs(n0, (count + 1) as usize, x0, rest)[i - 1] == x0 + (i - 1));
                assert(tail[i - 1] == ptrs[i]);
            }
        }
    }
}

/// The complement of replay: running a further sequence without resetting
/// the counter visits indices the pool has never seen, so every retrieval
/// of the second run returns a handle distinct from every handle of the
/// first run.
pub proof fn lemma_cache_distinct_without_reset(
    nodes: Map<usize, RawCpuBuf>,
    count: usize,
    next: u64,
    lens: Seq<usize>,
)
    requires
        count + 2 * lens.len() <= usize::MAX,
        next + 2 * lens.len() <= u64::MAX,
        nodes_wf(nodes, next),
        forall|k: usize| k >= count ==> !(#[trigger] nodes.contains_key(k)),
    ensures
        forall|i: int, j: int|
            0 <= i < lens.len() && 0 <= j < lens.len() ==> (#[trigger] run_ptrs(
                run_nodes(nodes, count, next, lens),
                (count + lens.len()) as usize,
                run_next(nodes, count, next, lens),
                lens,
            )[i]) != (#[trigger] run_ptrs(nodes, count, next, lens)[j]),
{
    let nodes1 = run_nodes(nodes, count, next, lens);
    let count1 = (count + lens.len()) as usize;
    let next1 = run_next(nodes, count, next, lens);
    lemma_run_properties(nodes, count, next, lens);
    assert(forall|k: usize| k >= count1 ==> !(#[trigger] nodes1.contains_key(k)));
    lemma_cache_fresh_when_ahead(nodes1, count1, next1, lens);
    assert forall|i: int, j: int|
        0 <= i < lens.len() && 0 <= j < lens.len() implies (#[trigger] run_ptrs(
        nodes1,
        count1,
        next1,
        lens,
    )[i]) != (#[trigger] run_ptrs(nodes, count, next, lens)[j]) by {
        assert(run_ptrs(nodes1, count1, next1, lens)[i] == next1 + i);
        assert(run_ptrs(nodes, count, next, lens)[j] < next1);
    }
}

/// A retrieval whose length differs from the pooled entry at the current
/// index is a forced miss: it returns a fresh handle, never the pooled
/// allocation of the other length.
pub proof fn lemma_cache_miss_on_size_change(
    nodes: Map<usize, RawCpuBuf>,
    count: usize,
    next: u64,
    len: usize,
)
    requires
        nodes.contains_key(count),
        nodes[count].len != len,
        nodes_wf(nodes, next),
    ensures
        step_ptr(nodes, count, next, len) == next,
        step_ptr(nodes, count, next, len) != nodes[count].ptr,
{
}


impl Default for Cache {
    fn default() -> (r: Cache)
        ensures
            r.count == 0,
            r.nodes@ == Map::<usize, RawCpuBuf>::empty(),
    {
        Cache::new()
    }
}

} // verus!
