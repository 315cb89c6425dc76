use vstd::prelude::*;

use crate::buffer::Buffer;
use crate::gradients::acc_seq;
use crate::gradients::zeros;
use crate::gradients::Gradients;
use crate::id::Id;
use crate::unit::copy_slice;

verus! {

/// A recorded backward operation. The tape does not compose derivatives; it
/// only replays these operations in reverse recording order. `AddToGrad` is
/// the `+=`-style accumulation a differentiable operation records for one of
/// its inputs; `Mark` leaves a tag in the execution log, which is how the
/// replay order is observed.
#[derive(Debug)]
pub enum GradFn {
    /// Does nothing.
    Noop,
    /// Appends `tag` to the execution log.
    Mark {
        /// The tag this operation leaves in the log.
        tag: u64,
    },
    /// Accumulates `delta` into the gradient buffer of `id`, allocating it
    /// zero-initialized first when absent.
    AddToGrad {
        /// The identity whose gradient is accumulated into.
        id: Id,
        /// The values added elementwise, wrapping.
        delta: Vec<i32>,
    },
}

/// What one backward operation does to the gradient pool.
pub open spec fn apply_grad_fn(m: Map<u64, Seq<i32>>, op: GradFn) -> Map<u64, Seq<i32>> {
    match op {
        GradFn::Noop => m,
        GradFn::Mark { tag } => m,
        GradFn::AddToGrad { id, delta } => m.insert(
            id.id,
            acc_seq(
                if m.contains_key(id.id) {
                    m[id.id]
                } else {
                    zeros(id.len)
                },
                delta@,
            ),
        ),
    }
}

/// The tag one backward operation leaves in the log.
pub open spec fn grad_fn_marks(op: GradFn) -> Seq<u64> {
    match op {
        GradFn::Mark { tag } => seq![tag],
        _ => Seq::empty(),
    }
}

/// The gradient pool after running the recorded operations in reverse
/// order, last pushed first.
pub open spec fn run_back(m: Map<u64, Seq<i32>>, fns: Seq<GradFn>) -> Map<u64, Seq<i32>>
    decreases fns.len(),
{
    if fns.len() == 0 {
        m
    } else {
        run_back(apply_grad_fn(m, fns.last()), fns.drop_last())
    }
}

/// The log a reverse-order run produces: the tags of the operations, last
/// pushed first.
pub open spec fn marks_rev(fns: Seq<GradFn>) -> Seq<u64>
    decreases fns.len(),
{
    if fns.len() == 0 {
        Seq::empty()
    } else {
        grad_fn_marks(fns.last()) + marks_rev(fns.drop_last())
    }
}

/// The log a forward traversal would produce: the tags of the operations
/// in push order.
pub open spec fn marks_fwd(fns: Seq<GradFn>) -> Seq<u64>
    decreases fns.len(),
{
    if fns.len() == 0 {
        Seq::empty()
    } else {
        grad_fn_marks(fns[0]) + marks_fwd(fns.drop_first())
    }
}

/// Reverse-order backward: the log of a backward run reads the tape in
/// exactly the reverse of push order, so it equals the forward reading of
/// the reversed tape.
pub proof fn lemma_backward_log_is_reverse(fns: Seq<GradFn>)
    ensures
        marks_rev(fns) == marks_fwd(fns.reverse()),
    decreases fns.len(),
{
    if fns.len() == 0 {
        assert(fns.reverse() =~= Seq::<GradFn>::empty());
    } else {
        lemma_backward_log_is_reverse(fns.drop_last());
        assert(fns.reverse()[0] == fns.last());
        assert(fns.reverse().drop_first() =~= fns.drop_last().reverse());
    }
}

/// The gradient tape: backward operations in the order the forward pass
/// recorded them. `backward` replays them in exactly the reverse of that
/// order.
#[derive(Debug)]
pub struct Tape {
    /// The recorded backward operations, in push order.
    pub grad_fns: Vec<GradFn>,
}

impl Tape {
    /// An empty tape.
    pub fn new() -> (r: Tape)
        ensures
            r.grad_fns@ == Seq::<GradFn>::empty(),
    {
        let r = Tape { grad_fns: Vec::new() };
        proof {
            assert(r.grad_fns@ =~= Seq::<GradFn>::empty());
        }
        r
    }

    /// Records one backward operation; `backward` will run it before every
    /// operation already on the tape.
    pub fn add_grad_fn(&mut self, grad_fn: GradFn)
        ensures
            final(self).grad_fns@ == old(self).grad_fns@.push(grad_fn),
    {
        self.grad_fns.push(grad_fn);
    }

    /// Runs the recorded operations in exact reverse push order against the
    /// gradient pool and returns the log of tags in execution order. The
    /// tape is cleared afterwards unless lazy mode holds it open for another
    /// run.
    pub fn backward(&mut self, grads: &mut Gradients, lazy_enabled: bool) -> (log: Vec<u64>)
        ensures
            final(grads).grads_pool.model() == run_back(
                old(grads).grads_pool.model(),
                old(self).grad_fns@,
            ),
            final(grads).no_grads_pool == old(grads).no_grads_pool,
            log@ == marks_rev(old(self).grad_fns@),
            !lazy_enabled ==> final(self).grad_fns@ == Seq::<GradFn>::empty(),
            lazy_enabled ==> final(self).grad_fns@ == old(self).grad_fns@,
    {
        let mut log: Vec<u64> = Vec::new();
        let mut i: usize = self.grad_fns.len();
        proof {
            assert(self.grad_fns@.subrange(0, i as int) =~= self.grad_fns@);
            assert(log@ + marks_rev(self.grad_fns@) =~= marks_rev(self.grad_fns@));
        }
        while i > 0
            invariant
                i <= self.grad_fns@.len(),
                self.grad_fns@ == old(self).grad_fns@,
                grads.no_grads_pool == old(grads).no_grads_pool,
                run_back(
                    grads.grads_pool.model(),
                    self.grad_fns@.subrange(0, i as int),
                ) == run_back(old(grads).grads_pool.model(), old(self).grad_fns@),
                log@ + marks_rev(self.grad_fns@.subrange(0, i as int)) == marks_rev(
                    old(self).grad_fns@,
                ),
            decreases i,
        {
            i = i - 1;
            let ghost pre_pool = grads.grads_pool.model();
            let ghost prefix = self.grad_fns@.subrange(0, i as int + 1);
            match &self.grad_fns[i] {
                GradFn::Noop => {
                },
                GradFn::Mark { tag } => {
                    log.push(*tag);
                },
                GradFn::AddToGrad { id, delta } => {
                    let the_id = *id;
                    grads.grads_pool.accumulate(the_id, delta.as_slice());
                },
            }
            proof {
                assert(prefix.last() == self.grad_fns@[i as int]);
                assert(prefix.drop_last() =~= self.grad_fns@.subrange(0, i as int));
                assert(grads.grads_pool.model() == apply_grad_fn(
                    pre_pool,
                    self.grad_fns@[i as int],
                ));
                assert(log@ + marks_rev(self.grad_fns@.subrange(0, i as int)) == marks_rev(
                    old(self).grad_fns@,
                ));
            }
        }
        proof {
            assert(self.grad_fns@.subrange(0, 0) =~= Seq::<GradFn>::empty());
            assert(log@ =~= log@ + marks_rev(Seq::<GradFn>::empty()));
        }
        if !lazy_enabled {
            self.grad_fns = Vec::new();
            proof {
                assert(self.grad_fns@ =~= Seq::<GradFn>::empty());
            }
        }
        log
    }

    /// Writes `seed` into the gradient buffer of `buf`, making it the
    /// starting value the reverse run accumulates into.
    pub fn seed_grad_for_buf(&self, buf: &Buffer<i32>, seed: &[i32], grads: &mut Gradients)
        requires
            seed@.len() == buf.data.len,
        ensures
            final(grads).grads_pool.model() == old(grads).grads_pool.model().insert(
                buf.id_spec().id,
                seed@,
            ),
            final(grads).no_grads_pool == old(grads).no_grads_pool,
    {
        let id = buf.id();
        grads.grads_pool.add_buf(id, copy_slice(seed));
    }

    /// Seeds the gradient of `buf` with `seed` and runs every recorded
    /// operation in reverse push order; returns the execution log. The tape
    /// is cleared afterwards.
    pub fn backward_seeded_with_buffers(
        &mut self,
        buf: &Buffer<i32>,
        seed: &[i32],
        grads: &mut Gradients,
    ) -> (log: Vec<u64>)
        requires
            seed@.len() == buf.data.len,
        ensures
            final(grads).grads_pool.model() == run_back(
                old(grads).grads_pool.model().insert(buf.id_spec().id, seed@),
                old(self).grad_fns@,
            ),
            final(grads).no_grads_pool == old(grads).no_grads_pool,
            log@ == marks_rev(old(self).grad_fns@),
            final(self).grad_fns@ == Seq::<GradFn>::empty(),
    {
        self.seed_grad_for_buf(buf, seed, grads);
        self.backward(grads, false)
    }
}


impl Default for Tape {
    fn default() -> (r: Tape)
        ensures
            r.grad_fns@ == Seq::<GradFn>::empty(),
    {
        Tape::new()
    }
}

} // verus!
