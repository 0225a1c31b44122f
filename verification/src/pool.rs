//! A bounded pool of reusable byte buffers shared by the operations issued
//! against one backend instance. A checkout when the pool is empty
//! allocates fresh rather than blocking; a released buffer is kept only
//! while the pool is under its bound and the buffer has not grown far
//! beyond the initial capacity.

use vstd::prelude::*;

verus! {

/// A buffer is retained on release only while its used size stays within
/// this multiple of the pool's initial capacity; a buffer grown further is
/// dropped to avoid unbounded growth retention.
pub const ACCEPTABLE_GROWTH: usize = 4;

/// Bounded pool of reusable byte buffers.
pub struct BufferPool {
    bufs: Vec<Vec<u8>>,
    bound: usize,
    initial_capacity: usize,
}

impl BufferPool {
    /// The pool never holds more buffers than its bound, and the retention
    /// threshold stays computable without overflow.
    pub closed spec fn wf(&self) -> bool {
        &&& self.bufs@.len() <= self.bound
        &&& self.initial_capacity <= usize::MAX as int / ACCEPTABLE_GROWTH as int
    }

    /// How many buffers the pool currently retains.
    pub closed spec fn spec_size(&self) -> nat {
        self.bufs@.len()
    }

    pub closed spec fn spec_bound(&self) -> nat {
        self.bound as nat
    }

    pub closed spec fn spec_initial_capacity(&self) -> nat {
        self.initial_capacity as nat
    }

    /// Creates an empty pool with the given bound and per-buffer initial
    /// capacity.
    pub fn new(bound: usize, initial_capacity: usize) -> (r: BufferPool)
        requires
            initial_capacity <= usize::MAX / ACCEPTABLE_GROWTH,
        ensures
            r.wf(),
            r.spec_size() == 0,
            r.spec_bound() == bound,
            r.spec_initial_capacity() == initial_capacity,
    {
        BufferPool { bufs: Vec::new(), bound, initial_capacity }
    }

    /// How many buffers the pool currently retains.
    pub fn size(&self) -> (r: usize)
        ensures
            r == self.spec_size(),
    {
        self.bufs.len()
    }

    pub fn bound(&self) -> (r: usize)
        ensures
            r == self.spec_bound(),
    {
        self.bound
    }

    /// Checks a buffer out: reuses a pooled one when available, otherwise
    /// allocates fresh. Never blocks. The returned buffer is empty.
    pub fn checkout(&mut self) -> (r: Vec<u8>)
        requires
            old(self).wf(),
        ensures
            final(self).wf(),
            r@ == Seq::<u8>::empty(),
            final(self).spec_bound() == old(self).spec_bound(),
            final(self).spec_initial_capacity() == old(self).spec_initial_capacity(),
            final(self).spec_size() == if old(self).spec_size() == 0 {
                0nat
            } else {
                (old(self).spec_size() - 1) as nat
            },
    {
        match self.bufs.pop() {
            Some(mut b) => {
                b.clear();
                b
            },
            None => Vec::with_capacity(self.initial_capacity),
        }
    }

    /// Returns a buffer to the pool. The buffer is retained only if the
    /// pool is under its bound and the buffer did not grow beyond an
    /// acceptable multiple of the initial capacity; otherwise it is
    /// dropped and the pool is left unchanged.
    pub fn release(&mut self, buf: Vec<u8>) -> (kept: bool)
        requires
            old(self).wf(),
        ensures
            final(self).wf(),
            final(self).spec_bound() == old(self).spec_bound(),
            final(self).spec_initial_capacity() == old(self).spec_initial_capacity(),
            kept == (old(self).spec_size() < old(self).spec_bound()
                && buf@.len() <= old(self).spec_initial_capacity() * ACCEPTABLE_GROWTH),
            final(self).spec_size() == if kept {
                old(self).spec_size() + 1
            } else {
                old(self).spec_size()
            },
    {
        if self.bufs.len() < self.bound && buf.len() <= self.initial_capacity * ACCEPTABLE_GROWTH {
            let mut buf = buf;
            buf.clear();
            self.bufs.push(buf);
            true
        } else {
            false
        }
    }
}

/// The pool bound is an invariant: whatever sequence of checkouts and
/// releases is performed, each step preserves well-formedness, and a
/// well-formed pool never holds more buffers than its configured bound.
pub proof fn lemma_pool_size_bounded(pool: BufferPool)
    requires
        pool.wf(),
    ensures
        pool.spec_size() <= pool.spec_bound(),
{
}

} // verus!
