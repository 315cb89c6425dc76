use vstd::prelude::*;

use crate::buffer::Buffer;
use crate::devices::Parents;
use crate::error::DeviceError;
use crate::id::Id;
use crate::unit::copy_slice;
use std::collections::HashMap;

verus! {

broadcast use vstd::std_specs::hash::group_hash_axioms;

/// Marker for argument packs of deferred operations.
pub trait ArgsTest {}

/// Conversion of an argument into the form a deferred operation stores.
pub trait ConvertTo<To> {
    /// The stored form of this value.
    fn conv(&self) -> To;
}

/// A value passed into a deferred operation without an identity of its own;
/// it contributes no entry to the stale-reference check.
pub struct NoId<T> {
    /// The wrapped value.
    pub data: T,
}

/// Wraps a value that has no buffer identity so it can stand among the
/// arguments of a deferred operation.
pub trait AsNoId: Sized {
    /// Wraps `self` into an identity-less argument.
    fn no_id(self) -> (r: NoId<Self>);
}

impl<T> AsNoId for T {
    fn no_id(self) -> (r: NoId<T>) {
        NoId { data: self }
    }
}

impl<T> Parents for NoId<T> {
    open spec fn ids_spec(&self) -> Seq<Id> {
        Seq::empty()
    }

    fn ids(&self) -> (r: Vec<Id>) {
        let r: Vec<Id> = Vec::new();
        proof {
            assert(r@ =~= self.ids_spec());
        }
        r
    }
}

/// A deferred operation's behavior, replayed against a buffer pool. The
/// graph records these instead of live references, so recording keeps no
/// buffer alive.
#[derive(Debug)]
pub enum LazyOp {
    /// Does nothing.
    Noop,
    /// Requires the pooled buffer `id` to hold exactly `expected`.
    ExpectEq {
        /// The buffer identity read.
        id: u64,
        /// The contents it must hold.
        expected: Vec<i32>,
    },
    /// Requires the captured value `held` to equal `expected`; touches no
    /// pooled buffer.
    ExpectOwned {
        /// The value captured when the operation was recorded.
        held: Vec<i32>,
        /// The contents it must hold.
        expected: Vec<i32>,
    },
    /// Writes `out[i] = in[i] + value` elementwise (wrapping) into the
    /// pooled buffer `out_id`, reading from `in_id`.
    AddScalar {
        /// The buffer written.
        out_id: u64,
        /// The buffer read.
        in_id: u64,
        /// The summand.
        value: i32,
    },
}

/// A recorded deferred operation: the identities of the buffers it touches,
/// and what it does when replayed.
#[derive(Debug)]
pub struct Operation {
    /// The identities of the argument buffers; `None` stands for an
    /// argument without an identity.
    pub arg_ids: Vec<Option<u64>>,
    /// The deferred behavior.
    pub op: LazyOp,
}

impl Operation {
    /// An operation over one identity-less argument that does nothing.
    pub fn no_op() -> (r: Operation)
        ensures
            r.arg_ids@ == seq![Option::<u64>::None],
            r.op is Noop,
    {
        let mut arg_ids: Vec<Option<u64>> = Vec::new();
        arg_ids.push(Option::None);
        proof {
            assert(arg_ids@ =~= seq![Option::<u64>::None]);
        }
        Operation { arg_ids, op: LazyOp::Noop }
    }
}

/// The buffer pool as contracts see it: identity to contents.
pub open spec fn buffers_model(m: Map<u64, Vec<i32>>) -> Map<u64, Seq<i32>> {
    m.map_values(|v: Vec<i32>| v@)
}

/// The pool model resolves exactly the identities the pool holds.
pub proof fn lemma_buffers_model_contains(m: Map<u64, Vec<i32>>)
    ensures
        forall|k: u64| #[trigger] buffers_model(m).contains_key(k) <==> m.contains_key(k),
{
}

/// Whether some referenced identity fails to resolve in the pool: the
/// recorded buffer was dropped before the run.
pub open spec fn stale(arg_ids: Seq<Option<u64>>, pool: Map<u64, Seq<i32>>) -> bool {
    exists|i: int|
        0 <= i < arg_ids.len() && (#[trigger] arg_ids[i]) is Some && !pool.contains_key(
            arg_ids[i].unwrap(),
        )
}

/// The elementwise sum written by an `AddScalar` replay: positions past the
/// end of the input keep the output's old values; additions wrap.
pub open spec fn add_scalar_seq(out: Seq<i32>, input: Seq<i32>, value: i32) -> Seq<i32> {
    Seq::new(
        out.len(),
        |i: int|
            if i < input.len() {
                vstd::wrapping::i32_specs::wrapping_add(input[i], value)
            } else {
                out[i]
            },
    )
}

/// What replaying one behavior does to the pool, and whether it succeeds.
pub open spec fn apply_op(pool: Map<u64, Seq<i32>>, op: LazyOp) -> (Map<u64, Seq<i32>>, Result<
    (),
    DeviceError,
>) {
    match op {
        LazyOp::Noop => (pool, Ok(())),
        LazyOp::ExpectEq { id, expected } => {
            if !pool.contains_key(id) {
                (pool, Err(DeviceError::InvalidLazyBuf))
            } else if pool[id] == expected@ {
                (pool, Ok(()))
            } else {
                (pool, Err(DeviceError::DataMismatch))
            }
        },
        LazyOp::ExpectOwned { held, expected } => {
            if held@ == expected@ {
                (pool, Ok(()))
            } else {
                (pool, Err(DeviceError::DataMismatch))
            }
        },
        LazyOp::AddScalar { out_id, in_id, value } => {
            if !pool.contains_key(out_id) || !pool.contains_key(in_id) {
                (pool, Err(DeviceError::InvalidLazyBuf))
            } else {
                (pool.insert(out_id, add_scalar_seq(pool[out_id], pool[in_id], value)), Ok(()))
            }
        },
    }
}

/// One replay step: a stale argument identity fails the operation before
/// its behavior runs, with the stale-reference error.
pub open spec fn step_op(pool: Map<u64, Seq<i32>>, op: Operation) -> (Map<u64, Seq<i32>>, Result<
    (),
    DeviceError,
>) {
    if stale(op.arg_ids@, pool) {
        (pool, Err(DeviceError::InvalidLazyBuf))
    } else {
        apply_op(pool, op.op)
    }
}

/// A fail-fast run: operations replay strictly in recorded order, and the
/// run stops at the first failure, leaving later operations unexecuted.
pub open spec fn run_graph(pool: Map<u64, Seq<i32>>, ops: Seq<Operation>) -> (Map<u64, Seq<i32>>, Result<
    (),
    DeviceError,
>)
    decreases ops.len(),
{
    if ops.len() == 0 {
        (pool, Ok(()))
    } else {
        let stepped = step_op(pool, ops[0]);
        if stepped.1 is Err {
            stepped
        } else {
            run_graph(stepped.0, ops.drop_first())
        }
    }
}

/// A run that does not stop: every operation replays in order whatever the
/// earlier results were, and each result is kept.
pub open spec fn run_graph_all(pool: Map<u64, Seq<i32>>, ops: Seq<Operation>) -> (Map<
    u64,
    Seq<i32>,
>, Seq<Result<(), DeviceError>>)
    decreases ops.len(),
{
    if ops.len() == 0 {
        (pool, Seq::empty())
    } else {
        let stepped = step_op(pool, ops[0]);
        let rest = run_graph_all(stepped.0, ops.drop_first());
        (rest.0, seq![stepped.1] + rest.1)
    }
}

/// Whether two slices hold the same elements.
fn slice_eq(a: &[i32], b: &[i32]) -> (r: bool)
    ensures
        r == (a@ == b@),
{
    if a.len() != b.len() {
        proof {
            assert(a@ != b@);
        }
        return false;
    }
    let mut i: usize = 0;
    while i < a.len()
        invariant
            i <= a@.len(),
            a@.len() == b@.len(),
            forall|j: int| 0 <= j < i ==> a@[j] == b@[j],
        decreases a@.len() - i,
    {
        if a[i] != b[i] {
            proof {
                assert(a@ != b@);
            }
            return false;
        }
        i = i + 1;
    }
    proof {
        assert(a@ =~= b@);
    }
    true
}

/// Registers a copy of `buf`'s contents in the pool under its identity, so
/// deferred operations can resolve it at replay time.
pub fn register_buf_copyable(buffers: &mut HashMap<u64, Vec<i32>>, buf: &Buffer<i32>)
    ensures
        buffers_model(final(buffers)@) == buffers_model(old(buffers)@).insert(
            buf.id_spec().id,
            buf.data.data@,
        ),
{
    let id = buf.id();
    buffers.insert(id.id, copy_slice(buf.data.as_slice()));
    proof {
        assert(buffers_model(buffers@) =~= buffers_model(old(buffers)@).insert(
            buf.id_spec().id,
            buf.data.data@,
        ));
    }
}

/// Replays one recorded operation against the pool: the stale-reference
/// check runs first, then the behavior.
#[verifier::loop_isolation(false)]
fn exec_op(op: &Operation, buffers: &mut HashMap<u64, Vec<i32>>) -> (r: Result<(), DeviceError>)
    ensures
        buffers_model(final(buffers)@) == step_op(buffers_model(old(buffers)@), *op).0,
        r == step_op(buffers_model(old(buffers)@), *op).1,
{
    let ghost pool0 = buffers_model(buffers@);
    let mut i: usize = 0;
    while i < op.arg_ids.len()
        invariant
            i <= op.arg_ids@.len(),
            buffers@ == old(buffers)@,
            forall|j: int|
                0 <= j < i ==> ((#[trigger] op.arg_ids@[j]) is Some ==> buffers_model(
                    buffers@,
                ).contains_key(op.arg_ids@[j].unwrap())),
        decreases op.arg_ids@.len() - i,
    {
        match &op.arg_ids[i] {
            Option::Some(id) => {
                if !buffers.contains_key(id) {
                    proof {
                        lemma_buffers_model_contains(buffers@);
                        assert(op.arg_ids@[i as int] == Option::Some(*id));
                        assert(!pool0.contains_key(*id));
                        assert(stale(op.arg_ids@, pool0));
                    }
                    return Err(DeviceError::InvalidLazyBuf);
                }
                proof {
                    lemma_buffers_model_contains(buffers@);
                }
            },
            Option::None => {
            },
        }
        i = i + 1;
    }
    proof {
        assert(!stale(op.arg_ids@, pool0));
    }
    match &op.op {
        LazyOp::Noop => Ok(()),
        LazyOp::ExpectEq { id, expected } => {
            match buffers.get(id) {
                Option::Some(v) => {
                    if slice_eq(v.as_slice(), expected.as_slice()) {
                        Ok(())
                    } else {
                        Err(DeviceError::DataMismatch)
                    }
                },
                Option::None => Err(DeviceError::InvalidLazyBuf),
            }
        },
        LazyOp::ExpectOwned { held, expected } => {
            if slice_eq(held.as_slice(), expected.as_slice()) {
                Ok(())
            } else {
                Err(DeviceError::DataMismatch)
            }
        },
        LazyOp::AddScalar { out_id, in_id, value } => {
            let input: Vec<i32> = match buffers.get(in_id) {
                Option::Some(v) => copy_slice(v.as_slice()),
                Option::None => {
                    return Err(DeviceError::InvalidLazyBuf);
                },
            };
            let out_len: usize = match buffers.get(out_id) {
                Option::Some(v) => v.len(),
                Option::None => {
                    return Err(DeviceError::InvalidLazyBuf);
                },
            };
            let ghost out0 = buffers_model(buffers@)[*out_id];
            let old_out: Vec<i32> = match buffers.remove(out_id) {
                Option::Some(v) => v,
                Option::None => unreached(),
            };
            let mut out: Vec<i32> = Vec::new();
            let mut j: usize = 0;
            while j < old_out.len()
                invariant
                    j <= old_out@.len(),
                    old_out@ == out0,
                    out@ == add_scalar_seq(out0, input@, *value).subrange(0, j as int),
                decreases old_out@.len() - j,
            {
                if j < input.len() {
                    out.push(input[j].wrapping_add(*value));
                } else {
                    out.push(old_out[j]);
                }
                j = j + 1;
                proof {
                    assert(out@ =~= add_scalar_seq(out0, input@, *value).subrange(0, j as int));
                }
            }
            proof {
                assert(out@ =~= add_scalar_seq(out0, input@, *value));
            }
            buffers.insert(*out_id, out);
            proof {
                assert(buffers_model(buffers@) =~= step_op(pool0, *op).0);
            }
            Ok(())
        },
    }
}

/// The recorded graph of deferred operations: an ordered list, replayed on
/// demand in recording order, which keeps no buffer alive and detects
/// references to buffers that were dropped in the meantime.
#[derive(Debug)]
pub struct LazyGraph {
    /// The recorded operations, in recording order.
    pub operations: Vec<Operation>,
}

impl LazyGraph {
    /// An empty graph.
    pub fn new() -> (r: LazyGraph)
        ensures
            r.operations@ == Seq::<Operation>::empty(),
    {
        let r = LazyGraph { operations: Vec::new() };
        proof {
            assert(r.operations@ =~= Seq::<Operation>::empty());
        }
        r
    }

    /// Builds an operation record from its argument pack and behavior,
    /// capturing the arguments' identities only.
    pub fn convert_to_operation<P: Parents>(args: &P, op: LazyOp) -> (r: Operation)
        ensures
            r.arg_ids@ == Seq::new(
                args.ids_spec().len(),
                |i: int| Option::Some(args.ids_spec()[i].id),
            ),
            r.op == op,
    {
        let ids = args.ids();
        let mut arg_ids: Vec<Option<u64>> = Vec::new();
        let mut i: usize = 0;
        while i < ids.len()
            invariant
                i <= ids@.len(),
                ids@ == args.ids_spec(),
                arg_ids@ == Seq::new(i as nat, |j: int| Option::Some(args.ids_spec()[j].id)),
            decreases ids@.len() - i,
        {
            arg_ids.push(Option::Some(ids[i].id));
            i = i + 1;
            proof {
                assert(arg_ids@ =~= Seq::new(
                    i as nat,
                    |j: int| Option::Some(args.ids_spec()[j].id),
                ));
            }
        }
        proof {
            assert(arg_ids@ =~= Seq::new(
                args.ids_spec().len(),
                |j: int| Option::Some(args.ids_spec()[j].id),
            ));
        }
        Operation { arg_ids, op }
    }

    /// Appends a deferred operation over `args` to the graph.
    pub fn add_operation<P: Parents>(&mut self, args: P, op: LazyOp)
        ensures
            final(self).operations@.len() == old(self).operations@.len() + 1,
            final(self).operations@.subrange(0, old(self).operations@.len() as int) == old(
                self,
            ).operations@,
            final(self).operations@.last().arg_ids@ == Seq::new(
                args.ids_spec().len(),
                |i: int| Option::Some(args.ids_spec()[i].id),
            ),
            final(self).operations@.last().op == op,
    {
        let operation = Self::convert_to_operation(&args, op);
        self.operations.push(operation);
        proof {
            assert(self.operations@.subrange(0, old(self).operations@.len() as int) =~= old(
                self,
            ).operations@);
        }
    }

    /// Discards all recorded operations without executing them.
    pub fn clear(&mut self)
        ensures
            final(self).operations@ == Seq::<Operation>::empty(),
    {
        self.operations.clear();
        proof {
            assert(self.operations@ =~= Seq::<Operation>::empty());
        }
    }

    /// Replays every recorded operation in order against the pool and
    /// returns the per-operation results; a failure does not stop the
    /// iteration.
    #[verifier::loop_isolation(false)]
    pub fn iter_with(&mut self, buffers: &mut HashMap<u64, Vec<i32>>) -> (results: Vec<
        Result<(), DeviceError>,
    >)
        ensures
            buffers_model(final(buffers)@) == run_graph_all(
                buffers_model(old(buffers)@),
                old(self).operations@,
            ).0,
            results@ == run_graph_all(buffers_model(old(buffers)@), old(self).operations@).1,
            *final(self) == *old(self),
    {
        let mut results: Vec<Result<(), DeviceError>> = Vec::new();
        let mut i: usize = 0;
        let ghost ops = self.operations@;
        let ghost pool0 = buffers_model(old(buffers)@);
        proof {
            assert(ops.subrange(0, ops.len() as int) =~= ops);
            assert(results@ + run_graph_all(pool0, ops).1 =~= run_graph_all(pool0, ops).1);
        }
        while i < self.operations.len()
            invariant
                i <= ops.len(),
                self.operations@ == ops,
                results@.len() == i,
                run_graph_all(buffers_model(buffers@), ops.subrange(i as int, ops.len() as int)).0
                    == run_graph_all(pool0, ops).0,
                results@ + run_graph_all(
                    buffers_model(buffers@),
                    ops.subrange(i as int, ops.len() as int),
                ).1 == run_graph_all(pool0, ops).1,
            decreases ops.len() - i,
        {
            let ghost pre = buffers_model(buffers@);
            let r = exec_op(&self.operations[i], buffers);
            results.push(r);
            i = i + 1;
            proof {
                let tail_pre = ops.subrange(i - 1, ops.len() as int);
                let tail_post = ops.subrange(i as int, ops.len() as int);
                assert(tail_pre[0] == ops[i - 1]);
                assert(tail_pre.drop_first() =~= tail_post);
            }
        }
        proof {
            assert(ops.subrange(ops.len() as int, ops.len() as int) =~= Seq::<Operation>::empty());
            assert(results@ =~= results@ + run_graph_all(
                buffers_model(buffers@),
                Seq::<Operation>::empty(),
            ).1);
        }
        results
    }

    /// Replays the recorded operations in order, stopping at the first
    /// failure: later operations are not executed, and the first error is
    /// returned. A reference to a dropped buffer fails with the
    /// stale-reference error.
    #[verifier::loop_isolation(false)]
    pub fn call_lazily(&mut self, outs_unordered: &mut HashMap<u64, Vec<i32>>) -> (r: Result<
        (),
        DeviceError,
    >)
        ensures
            buffers_model(final(outs_unordered)@) == run_graph(
                buffers_model(old(outs_unordered)@),
                old(self).operations@,
            ).0,
            r == run_graph(buffers_model(old(outs_unordered)@), old(self).operations@).1,
            *final(self) == *old(self),
    {
        let mut i: usize = 0;
        let ghost ops = self.operations@;
        let ghost pool0 = buffers_model(old(outs_unordered)@);
        proof {
            assert(ops.subrange(0, ops.len() as int) =~= ops);
        }
        while i < self.operations.len()
            invariant
                i <= ops.len(),
                self.operations@ == ops,
                run_graph(buffers_model(outs_unordered@), ops.subrange(i as int, ops.len() as int))
                    == run_graph(pool0, ops),
            decreases ops.len() - i,
        {
            let ghost pre = buffers_model(outs_unordered@);
            let r = exec_op(&self.operations[i], outs_unordered);
            i = i + 1;
            proof {
                let tail_pre = ops.subrange(i - 1, ops.len() as int);
                let tail_post = ops.subrange(i as int, ops.len() as int);
                assert(tail_pre[0] == ops[i - 1]);
                assert(tail_pre.drop_first() =~= tail_post);
                assert(run_graph(pre, tail_pre) == run_graph(pool0, ops));
            }
            if let Err(e) = r {
                proof {
                    let tail_pre = ops.subrange(i - 1, ops.len() as int);
                    assert(step_op(pre, ops[i - 1]).1 == Err::<(), DeviceError>(e));
                    assert(run_graph(pre, tail_pre) == (buffers_model(outs_unordered@), Err::<
                        (),
                        DeviceError,
                    >(e)));
                }
                return Err(e);
            }
        }
        proof {
            assert(ops.subrange(ops.len() as int, ops.len() as int) =~= Seq::<Operation>::empty());
        }
        Ok(())
    }

    /// Removes the operations in `[start, end)` from the graph and replays
    /// them in order, stopping at the first failure; the removed operations
    /// are discarded either way, executed or not.
    #[verifier::loop_isolation(false)]
    pub fn call_range(
        &mut self,
        start: usize,
        end: usize,
        outs_unordered: &mut HashMap<u64, Vec<i32>>,
    ) -> (r: Result<(), DeviceError>)
        requires
            start <= end <= old(self).operations@.len(),
        ensures
            final(self).operations@ == old(self).operations@.subrange(0, start as int) + old(
                self,
            ).operations@.subrange(end as int, old(self).operations@.len() as int),
            buffers_model(final(outs_unordered)@) == run_graph(
                buffers_model(old(outs_unordered)@),
                old(self).operations@.subrange(start as int, end as int),
            ).0,
            r == run_graph(
                buffers_model(old(outs_unordered)@),
                old(self).operations@.subrange(start as int, end as int),
            ).1,
    {
        let ghost ops0 = self.operations@;
        let mut removed: Vec<Operation> = Vec::new();
        let mut k: usize = start;
        while k < end
            invariant
                start <= k <= end <= ops0.len(),
                self.operations@ == ops0.subrange(0, start as int) + ops0.subrange(
                    k as int,
                    ops0.len() as int,
                ),
                removed@ == ops0.subrange(start as int, k as int),
            decreases end - k,
        {
            let op = self.operations.remove(start);
            removed.push(op);
            k = k + 1;
            proof {
                assert(self.operations@ =~= ops0.subrange(0, start as int) + ops0.subrange(
                    k as int,
                    ops0.len() as int,
                ));
                assert(removed@ =~= ops0.subrange(start as int, k as int));
            }
        }
        let ghost removed_ops = removed@;
        let ghost pool0 = buffers_model(old(outs_unordered)@);
        let mut i: usize = 0;
        proof {
            assert(removed_ops.subrange(0, removed_ops.len() as int) =~= removed_ops);
        }
        while i < removed.len()
            invariant
                i <= removed@.len(),
                removed@ == removed_ops,
                self.operations@ == ops0.subrange(0, start as int) + ops0.subrange(
                    end as int,
                    ops0.len() as int,
                ),
                run_graph(
                    buffers_model(outs_unordered@),
                    removed_ops.subrange(i as int, removed_ops.len() as int),
                ) == run_graph(pool0, removed_ops),
            decreases removed@.len() - i,
        {
            let ghost pre = buffers_model(outs_unordered@);
            let r = exec_op(&removed[i], outs_unordered);
            i = i + 1;
            proof {
                let tail_pre = removed_ops.subrange(i - 1, removed_ops.len() as int);
                let tail_post = removed_ops.subrange(i as int, removed_ops.len() as int);
                assert(tail_pre[0] == removed_ops[i - 1]);
                assert(tail_pre.drop_first() =~= tail_post);
                assert(run_graph(pre, tail_pre) == run_graph(pool0, removed_ops));
            }
            if let Err(e) = r {
                proof {
                    let tail_pre = removed_ops.subrange(i - 1, removed_ops.len() as int);
                    assert(step_op(pre, removed_ops[i - 1]).1 == Err::<(), DeviceError>(e));
                    assert(run_graph(pre, tail_pre) == (buffers_model(outs_unordered@), Err::<
                        (),
                        DeviceError,
                    >(e)));
                }
                return Err(e);
            }
        }
        proof {
            assert(removed_ops.subrange(removed_ops.len() as int, removed_ops.len() as int)
                =~= Seq::<Operation>::empty());
        }
        Ok(())
    }
}

/// A second recording surface kept beside the main one: operations recorded
/// here are stored but replayed through the same machinery.
#[derive(Debug)]
pub struct Operation2 {
    /// The identities of the argument buffers.
    pub arg_ids: Vec<Option<u64>>,
    /// The deferred behavior.
    pub op: LazyOp,
}

/// A graph with two recording surfaces.
#[derive(Debug)]
pub struct LazyGraph2 {
    /// Operations recorded through the primary surface.
    pub operations: Vec<Operation>,
    /// Operations recorded through the secondary surface.
    pub operations2: Vec<Operation2>,
}

impl LazyGraph2 {
    /// An empty graph.
    pub fn new() -> (r: LazyGraph2)
        ensures
            r.operations@ == Seq::<Operation>::empty(),
            r.operations2@ == Seq::<Operation2>::empty(),
    {
        let r = LazyGraph2 { operations: Vec::new(), operations2: Vec::new() };
        proof {
            assert(r.operations@ =~= Seq::<Operation>::empty());
            assert(r.operations2@ =~= Seq::<Operation2>::empty());
        }
        r
    }

    /// Builds a secondary operation record from its argument pack and
    /// behavior, capturing the arguments' identities only.
    pub fn convert_to_operation2<P: Parents>(args: &P, op: LazyOp) -> (r: Operation2)
        ensures
            r.arg_ids@ == Seq::new(
                args.ids_spec().len(),
                |i: int| Option::Some(args.ids_spec()[i].id),
            ),
            r.op == op,
    {
        let inner = LazyGraph::convert_to_operation(args, op);
        Operation2 { arg_ids: inner.arg_ids, op: inner.op }
    }

    /// Appends a deferred operation over `args` to the secondary surface.
    pub fn add_operation2<P: Parents>(&mut self, args: P, op: LazyOp)
        ensures
            final(self).operations2@.len() == old(self).operations2@.len() + 1,
            final(self).operations2@.subrange(0, old(self).operations2@.len() as int) == old(
                self,
            ).operations2@,
            final(self).operations2@.last().arg_ids@ == Seq::new(
                args.ids_spec().len(),
                |i: int| Option::Some(args.ids_spec()[i].id),
            ),
            final(self).operations2@.last().op == op,
            final(self).operations@ == old(self).operations@,
    {
        let operation = Self::convert_to_operation2(&args, op);
        self.operations2.push(operation);
        proof {
            assert(self.operations2@.subrange(0, old(self).operations2@.len() as int) =~= old(
                self,
            ).operations2@);
        }
    }
}


impl Default for LazyGraph {
    fn default() -> (r: LazyGraph)
        ensures
            r.operations@ == Seq::<Operation>::empty(),
    {
        LazyGraph::new()
    }
}

impl Default for LazyGraph2 {
    fn default() -> (r: LazyGraph2)
        ensures
            r.operations@ == Seq::<Operation>::empty(),
            r.operations2@ == Seq::<Operation2>::empty(),
    {
        LazyGraph2::new()
    }
}

} // verus!
