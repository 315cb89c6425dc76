use vstd::prelude::*;

verus! {

/// Anything that can describe an inclusive range of epochs: a bare upper
/// bound, a pair, or a range value.
pub trait AsRangeArg {
    /// The first epoch.
    spec fn start_spec(&self) -> usize;

    /// The last epoch, inclusive.
    spec fn end_spec(&self) -> usize;

    /// The first epoch.
    fn start(&self) -> (r: usize)
        ensures
            r == self.start_spec(),
    ;

    /// The last epoch, inclusive.
    fn end(&self) -> (r: usize)
        ensures
            r == self.end_spec(),
    ;
}

impl AsRangeArg for core::ops::Range<usize> {
    open spec fn start_spec(&self) -> usize {
        self.start
    }

    open spec fn end_spec(&self) -> usize {
        self.end
    }

    fn start(&self) -> usize {
        self.start
    }

    fn end(&self) -> usize {
        self.end
    }
}

impl AsRangeArg for usize {
    open spec fn start_spec(&self) -> usize {
        0
    }

    open spec fn end_spec(&self) -> usize {
        *self
    }

    fn start(&self) -> usize {
        0
    }

    fn end(&self) -> usize {
        *self
    }
}

impl AsRangeArg for (usize, usize) {
    open spec fn start_spec(&self) -> usize {
        self.0
    }

    open spec fn end_spec(&self) -> usize {
        self.1
    }

    fn start(&self) -> usize {
        self.0
    }

    fn end(&self) -> usize {
        self.1
    }
}

/// An inclusive range of epochs, each of which replays the same retrieval
/// sequence against the cache.
#[derive(Debug, Clone, Copy, PartialEq, Eq, Structural)]
pub struct Count(pub usize, pub usize);

/// Builds the inclusive epoch range described by `bounds`.
pub fn range<R: AsRangeArg>(bounds: R) -> (c: Count)
    ensures
        c.0 == bounds.start_spec(),
        c.1 == bounds.end_spec(),
{
    Count(bounds.start(), bounds.end())
}

/// Iteration state over an epoch range: each step re-synchronizes the
/// retrieval counter to the value captured when iteration began, so every
/// epoch reproduces the cache hits of the first one.
#[derive(Debug, Clone, Copy, PartialEq, Eq, Structural)]
pub struct CountIntoIter {
    /// The next epoch to yield.
    pub epoch: usize,
    /// The counter value each epoch is reset to.
    pub idx: usize,
    /// The last epoch, inclusive.
    pub end: usize,
}

impl Count {
    /// Starts iterating, capturing the current retrieval counter as the
    /// value every epoch resets to.
    pub fn into_iter(self, current_count: usize) -> (it: CountIntoIter)
        ensures
            it == (CountIntoIter { epoch: self.0, idx: current_count, end: self.1 }),
    {
        CountIntoIter { epoch: self.0, idx: current_count, end: self.1 }
    }
}

impl CountIntoIter {
    /// Yields the next epoch, resetting the retrieval counter to the
    /// captured value first; past the final epoch it yields nothing and
    /// leaves the iteration state alone.
    pub fn next(&mut self, count: &mut usize) -> (r: Option<usize>)
        requires
            old(self).end < usize::MAX,
        ensures
            *final(count) == old(self).idx,
            old(self).epoch > old(self).end ==> r is None && *final(self) == *old(self),
            old(self).epoch <= old(self).end ==> r == Some(old(self).epoch) && *final(self) == (
            CountIntoIter {
                epoch: (old(self).epoch + 1) as usize,
                ..*old(self)
            }),
    {
        *count = self.idx;
        if self.epoch > self.end {
            Option::None
        } else {
            let epoch = self.epoch;
            self.epoch = self.epoch + 1;
            Some(epoch)
        }
    }
}

} // verus!
