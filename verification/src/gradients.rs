use vstd::prelude::*;

use crate::buffer::Buffer;
use crate::id::Id;
use crate::unit::copy_slice;
use crate::unit::zero_vec;
use std::collections::HashMap;

verus! {

broadcast use vstd::std_specs::hash::group_hash_axioms;

/// Failure of a pool lookup.
#[derive(Debug, Clone, Copy, PartialEq, Eq, Structural)]
pub enum CachingError {
    /// No buffer with the given identity lives in the pool.
    InvalidId,
}

/// The zero-initialized contents a gradient gets on first access.
pub open spec fn zeros(len: usize) -> Seq<i32> {
    Seq::new(len as nat, |i: int| 0i32)
}

/// The gradient pool after one access for `id`: untouched when a gradient
/// already lives there, extended by a zero-initialized one otherwise.
pub open spec fn accessed(m: Map<u64, Seq<i32>>, id: Id) -> Map<u64, Seq<i32>> {
    if m.contains_key(id.id) {
        m
    } else {
        m.insert(id.id, zeros(id.len))
    }
}

/// Gradient access is idempotent: once a gradient buffer exists, any
/// further access for the same identity returns that same buffer and leaves
/// the whole pool untouched, so its contents persist between accesses.
pub proof fn lemma_grad_access_idempotent(m: Map<u64, Seq<i32>>, id: Id)
    ensures
        accessed(accessed(m, id), id) == accessed(m, id),
        accessed(m, id)[id.id] == accessed(accessed(m, id), id)[id.id],
{
}

/// Elementwise accumulation of `delta` into `cur`: entries past the end of
/// `delta` are left as they are; additions wrap.
pub open spec fn acc_seq(cur: Seq<i32>, delta: Seq<i32>) -> Seq<i32> {
    Seq::new(
        cur.len(),
        |i: int|
            if i < delta.len() {
                vstd::wrapping::i32_specs::wrapping_add(cur[i], delta[i])
            } else {
                cur[i]
            },
    )
}

/// A pool of buffers keyed by identity. Gradient storage and the no-grad
/// registry are both pools of this shape.
#[derive(Debug)]
pub struct BorrowCache {
    /// The pooled buffer contents, keyed by the identity's slot handle.
    pub cache: HashMap<u64, Vec<i32>>,
}

impl BorrowCache {
    /// The pool as contracts see it: identity to contents.
    pub open spec fn model(self) -> Map<u64, Seq<i32>> {
        self.cache@.map_values(|v: Vec<i32>| v@)
    }

    /// An empty pool.
    pub fn new() -> (r: BorrowCache)
        ensures
            r.model() == Map::<u64, Seq<i32>>::empty(),
    {
        let r = BorrowCache { cache: HashMap::new() };
        proof {
            assert(r.model() =~= Map::<u64, Seq<i32>>::empty());
        }
        r
    }

    /// Whether the pool holds a buffer for this identity.
    pub fn contains(&self, id: Id) -> (r: bool)
        ensures
            r == self.model().contains_key(id.id),
    {
        self.cache.contains_key(&id.id)
    }

    /// The pooled buffer for `id`, or `InvalidId` when none lives here.
    pub fn get_buf(&self, id: Id) -> (r: Result<&Vec<i32>, CachingError>)
        ensures
            match r {
                Ok(v) => self.model().contains_key(id.id) && v@ == self.model()[id.id],
                Err(e) => !self.model().contains_key(id.id) && e == CachingError::InvalidId,
            },
    {
        match self.cache.get(&id.id) {
            Option::Some(v) => Ok(v),
            Option::None => Err(CachingError::InvalidId),
        }
    }

    /// Stores `data` as the buffer for `id`, replacing any previous one.
    pub fn add_buf(&mut self, id: Id, data: Vec<i32>)
        ensures
            final(self).model() == old(self).model().insert(id.id, data@),
    {
        self.cache.insert(id.id, data);
        proof {
            assert(self.model() =~= old(self).model().insert(id.id, data@));
        }
    }

    /// Makes sure a buffer for `id` lives in the pool, allocating it
    /// zero-initialized with the identity's length if it does not; an
    /// existing buffer, and everything else in the pool, is left untouched.
    pub fn add_or_get(&mut self, id: Id)
        ensures
            final(self).model() == accessed(old(self).model(), id),
            final(self).model().contains_key(id.id),
    {
        if !self.cache.contains_key(&id.id) {
            self.cache.insert(id.id, zero_vec(id.len));
            proof {
                assert(self.model() =~= old(self).model().insert(id.id, zeros(id.len)));
            }
        } else {
            proof {
                assert(self.model() =~= old(self).model());
            }
        }
    }

    /// Accumulates `delta` into the buffer for `id`, allocating it
    /// zero-initialized first when absent. Additions wrap; entries past the
    /// end of `delta` keep their values.
    pub fn accumulate(&mut self, id: Id, delta: &[i32])
        ensures
            final(self).model() == old(self).model().insert(
                id.id,
                acc_seq(
                    if old(self).model().contains_key(id.id) {
                        old(self).model()[id.id]
                    } else {
                        zeros(id.len)
                    },
                    delta@,
                ),
            ),
    {
        let cur: Vec<i32> = match self.cache.remove(&id.id) {
            Option::Some(v) => v,
            Option::None => zero_vec(id.len),
        };
        let ghost cur0 = cur@;
        let mut out: Vec<i32> = Vec::new();
        let mut i: usize = 0;
        while i < cur.len()
            invariant
                i <= cur@.len(),
                cur@ == cur0,
                out@ == acc_seq(cur0, delta@).subrange(0, i as int),
            decreases cur@.len() - i,
        {
            if i < delta.len() {
                out.push(cur[i].wrapping_add(delta[i]));
            } else {
                out.push(cur[i]);
            }
            i = i + 1;
            proof {
                assert(out@ =~= acc_seq(cur0, delta@).subrange(0, i as int));
            }
        }
        proof {
            assert(out@ =~= acc_seq(cur0, delta@));
        }
        self.cache.insert(id.id, out);
        proof {
            assert(self.model() =~= old(self).model().insert(
                id.id,
                acc_seq(
                    if old(self).model().contains_key(id.id) {
                        old(self).model()[id.id]
                    } else {
                        zeros(id.len)
                    },
                    delta@,
                ),
            ));
        }
    }

    /// Removes the buffer for `id` from the pool, if one lives here.
    pub fn remove_buf(&mut self, id: Id)
        ensures
            final(self).model() == old(self).model().remove(id.id),
    {
        self.cache.remove(&id.id);
        proof {
            assert(self.model() =~= old(self).model().remove(id.id));
        }
    }

    /// Empties the pool.
    pub fn clear(&mut self)
        ensures
            final(self).model() == Map::<u64, Seq<i32>>::empty(),
    {
        self.cache.clear();
        proof {
            assert(self.model() =~= Map::<u64, Seq<i32>>::empty());
        }
    }
}

/// Gradient storage: one gradient buffer per originating identity, lazily
/// allocated zero-initialized on first access, plus the registry of buffers
/// retrieved without gradient tracking.
#[derive(Debug)]
pub struct Gradients {
    /// One gradient buffer per originating identity.
    pub grads_pool: BorrowCache,
    /// Buffers registered as not requiring gradients.
    pub no_grads_pool: BorrowCache,
}

impl Gradients {
    /// Empty gradient storage.
    pub fn new() -> (r: Gradients)
        ensures
            r.grads_pool.model() == Map::<u64, Seq<i32>>::empty(),
            r.no_grads_pool.model() == Map::<u64, Seq<i32>>::empty(),
    {
        Gradients { grads_pool: BorrowCache::new(), no_grads_pool: BorrowCache::new() }
    }

    /// Clears all gradient buffers.
    pub fn zero_grad(&mut self)
        ensures
            final(self).grads_pool.model() == Map::<u64, Seq<i32>>::empty(),
            final(self).no_grads_pool == old(self).no_grads_pool,
    {
        self.grads_pool.clear();
    }

    /// The gradient buffer for `id`, if one was allocated before.
    pub fn may_get_ref(&self, id: Id) -> (r: Result<&Vec<i32>, CachingError>)
        ensures
            match r {
                Ok(v) => self.grads_pool.model().contains_key(id.id) && v@
                    == self.grads_pool.model()[id.id],
                Err(e) => !self.grads_pool.model().contains_key(id.id) && e
                    == CachingError::InvalidId,
            },
    {
        self.grads_pool.get_buf(id)
    }

    /// A copy of the gradient buffer for `id`, if one was allocated before.
    pub fn may_get_mut(&mut self, id: Id) -> (r: Result<Vec<i32>, CachingError>)
        ensures
            *final(self) == *old(self),
            match r {
                Ok(v) => final(self).grads_pool.model().contains_key(id.id) && v@
                    == final(self).grads_pool.model()[id.id],
                Err(e) => !final(self).grads_pool.model().contains_key(id.id) && e
                    == CachingError::InvalidId,
            },
    {
        match self.grads_pool.get_buf(id) {
            Ok(v) => Ok(copy_slice(v.as_slice())),
            Err(e) => Err(e),
        }
    }

    /// The gradient buffer for `id`; allocates it zero-initialized when it
    /// does not exist yet. Repeated access returns the same buffer with its
    /// contents intact, which is what makes in-place accumulation sound.
    pub fn get_ref(&mut self, id: Id) -> (r: &Vec<i32>)
        ensures
            final(self).grads_pool.model() == accessed(old(self).grads_pool.model(), id),
            final(self).grads_pool.model().contains_key(id.id),
            r@ == final(self).grads_pool.model()[id.id],
            final(self).no_grads_pool == old(self).no_grads_pool,
    {
        self.grads_pool.add_or_get(id);
        let r = match self.grads_pool.get_buf(id) {
            Ok(v) => v,
            Err(_) => unreached(),
        };
        r
    }

    /// A copy of the gradient buffer for `id`; allocates the buffer
    /// zero-initialized when it does not exist yet.
    pub fn get_mut(&mut self, id: Id) -> (r: Vec<i32>)
        ensures
            final(self).grads_pool.model() == accessed(old(self).grads_pool.model(), id),
            final(self).grads_pool.model().contains_key(id.id),
            r@ == final(self).grads_pool.model()[id.id],
            final(self).no_grads_pool == old(self).no_grads_pool,
    {
        self.grads_pool.add_or_get(id);
        let r = match self.grads_pool.get_buf(id) {
            Ok(v) => copy_slice(v.as_slice()),
            Err(_) => unreached(),
        };
        r
    }

    /// The gradient buffer matching `buf`'s identity, allocated like `buf`
    /// when absent.
    pub fn get_like(&mut self, buf: &Buffer<i32>) -> (r: &Vec<i32>)
        ensures
            final(self).grads_pool.model() == accessed(
                old(self).grads_pool.model(),
                buf.id_spec(),
            ),
            final(self).grads_pool.model().contains_key(buf.id_spec().id),
            r@ == final(self).grads_pool.model()[buf.id_spec().id],
            final(self).no_grads_pool == old(self).no_grads_pool,
    {
        let id = buf.id();
        self.get_ref(id)
    }

    /// The registered no-grad buffer for `id`. Asking for an identity that
    /// was never registered is a caller error, ruled out by contract.
    pub fn get_buf_from_no_grad_pool(&self, id: Id) -> (r: &Vec<i32>)
        requires
            self.no_grads_pool.model().contains_key(id.id),
        ensures
            r@ == self.no_grads_pool.model()[id.id],
    {
        match self.no_grads_pool.get_buf(id) {
            Ok(v) => v,
            Err(_) => unreached(),
        }
    }
}


impl Default for BorrowCache {
    fn default() -> (r: BorrowCache)
        ensures
            r.model() == Map::<u64, Seq<i32>>::empty(),
    {
        BorrowCache::new()
    }
}

impl Default for Gradients {
    fn default() -> (r: Gradients)
        ensures
            r.grads_pool.model() == Map::<u64, Seq<i32>>::empty(),
            r.no_grads_pool.model() == Map::<u64, Seq<i32>>::empty(),
    {
        Gradients::new()
    }
}

} // verus!
