//! The shared block ring behind the parallel-prefetch adapter.
//!
//! Prefetching decouples a slow, blocking upstream from consumption: a
//! producer fills whole blocks of samples and pushes them at the front
//! of a shared ring, while any number of consumers read the ring at
//! their own pace, each holding a count of blocks it has not read yet.
//! A block's memory is recycled only once every consumer has read it:
//! the slowest consumer decides. Each consumer sees the full block
//! sequence, contiguous and in production order, never skipping or
//! reordering a block.
//!
//! This type is the ring itself, with the recycling and accounting
//! rules; running the producer on a background task and blocking a
//! starved consumer are thread plumbing outside this crate.

use vstd::prelude::*;

verus! {

/// A shared ring of produced blocks: the blocks themselves, newest
/// first, and one unread-block count per consumer.
#[derive(Clone, Debug)]
pub struct TeeDeque<A> {
    /// The blocks, newest at index 0.
    pub data: Vec<A>,
    /// For each consumer, how many blocks it has not read yet; consumer
    /// `c` reads `data[available[c] - 1]` next, so it sees blocks in
    /// production order.
    pub available: Vec<usize>,
}

impl<A> TeeDeque<A> {
    /// Every consumer's unread count stays within the ring.
    pub open spec fn wf(&self) -> bool {
        forall|c: int| 0 <= c < self.available@.len() ==> #[trigger] self.available@[c]
            <= self.data@.len()
    }

    /// Whether the oldest block has been read by every consumer and may
    /// be recycled on the next push.
    pub open spec fn can_recycle(&self) -> bool {
        self.data@.len() > 0 && forall|c: int|
            0 <= c < self.available@.len() ==> #[trigger] self.available@[c] < self.data@.len()
    }

    /// An empty ring with one consumer.
    pub fn new() -> (r: TeeDeque<A>)
        ensures
            r.data@.len() == 0,
            r.available@ =~= seq![0usize],
            r.wf(),
    {
        Self::with_capacity(0)
    }

    /// An empty ring with one consumer; `capacity` is an allocation
    /// hint only.
    pub fn with_capacity(capacity: usize) -> (r: TeeDeque<A>)
        ensures
            r.data@.len() == 0,
            r.available@ =~= seq![0usize],
            r.wf(),
    {
        let mut available: Vec<usize> = Vec::new();
        available.push(0);
        TeeDeque { data: Vec::new(), available }
    }

    /// Registers a new consumer, which starts with every block of the
    /// ring still to read, and returns its id.
    pub fn add_consumer(&mut self) -> (id: usize)
        requires
            old(self).wf(),
        ensures
            final(self).wf(),
            id == old(self).available@.len(),
            final(self).data@ == old(self).data@,
            final(self).available@ =~= old(self).available@.push(old(self).data@.len() as usize),
    {
        let id: usize = self.available.len();
        let n: usize = self.data.len();
        self.available.push(n);
        id
    }

    /// Pushes a freshly produced block at the front and hands every
    /// consumer one more unread block. If every consumer had read the
    /// oldest block, that block leaves the ring and comes back to the
    /// caller for reuse.
    pub fn push_block(&mut self, block: A) -> (recycled: Option<A>)
        requires
            old(self).wf(),
            old(self).data@.len() < usize::MAX,
        ensures
            final(self).wf(),
            old(self).can_recycle() ==> recycled == Some(old(self).data@.last())
                && final(self).data@ =~= seq![block] + old(self).data@.drop_last(),
            !old(self).can_recycle() ==> recycled is None && final(self).data@ =~= seq![block]
                + old(self).data@,
            final(self).available@.len() == old(self).available@.len(),
            forall|c: int|
                0 <= c < old(self).available@.len() ==> #[trigger] final(self).available@[c]
                    == old(self).available@[c] + 1,
    {
        let mut maxavail: usize = 0;
        let mut c: usize = 0;
        while c < self.available.len()
            invariant
                self == old(self),
                c <= self.available@.len(),
                forall|j: int| 0 <= j < c ==> #[trigger] self.available@[j] <= maxavail,
                maxavail == 0 || (exists|j: int|
                    0 <= j < c && #[trigger] self.available@[j] == maxavail),
            decreases self.available@.len() - c,
        {
            let a: usize = self.available[c];
            if a > maxavail {
                maxavail = a;
            }
            c = c + 1;
        }
        let do_recycle: bool = maxavail < self.data.len();
        proof {
            assert(do_recycle == old(self).can_recycle()) by {
                if old(self).can_recycle() && self.available@.len() > 0 && maxavail > 0 {
                    let j = choose|j: int|
                        0 <= j < self.available@.len() && self.available@[j] == maxavail;
                    assert(self.available@[j] < self.data@.len());
                }
            }
        }
        let recycled: Option<A> = if do_recycle {
            let last: A = self.data.pop().unwrap();
            Some(last)
        } else {
            None
        };
        self.data.insert(0, block);
        proof {
            if old(self).can_recycle() {
                assert(self.data@ =~= seq![block] + old(self).data@.drop_last());
            } else {
                assert(self.data@ =~= seq![block] + old(self).data@);
            }
            assert forall|j: int|
                0 <= j < self.available@.len() implies old(self).available@[j] + 1
                <= self.data@.len() by {
                if old(self).can_recycle() {
                    assert(old(self).available@[j] <= maxavail);
                }
            }
        }
        let dlen: usize = self.data.len();
        let mut i: usize = 0;
        while i < self.available.len()
            invariant
                self.data@.len() == dlen,
                old(self).can_recycle() ==> recycled == Some(old(self).data@.last())
                    && self.data@ =~= seq![block] + old(self).data@.drop_last(),
                !old(self).can_recycle() ==> recycled is None && self.data@ =~= seq![block]
                    + old(self).data@,
                self.available@.len() == old(self).available@.len(),
                i <= self.available@.len(),
                forall|j: int|
                    0 <= j < i ==> #[trigger] self.available@[j] == old(self).available@[j] + 1,
                forall|j: int|
                    i <= j < self.available@.len() ==> #[trigger] self.available@[j] == old(
                        self,
                    ).available@[j],
                forall|j: int|
                    0 <= j < self.available@.len() ==> old(self).available@[j] + 1
                        <= self.data@.len(),
            decreases self.available@.len() - i,
        {
            let a: usize = self.available[i];
            self.available.set(i, a + 1);
            i = i + 1;
        }
        recycled
    }

    /// Takes one unread block from consumer `id`'s count and returns
    /// the index to read it at, or `None` if the consumer has read
    /// everything. The ring itself does not change, so the block stays
    /// for the other consumers.
    pub fn try_pop_index(&mut self, id: usize) -> (r: Option<usize>)
        requires
            old(self).wf(),
            id < old(self).available@.len(),
        ensures
            final(self).wf(),
            final(self).data@ == old(self).data@,
            final(self).available@.len() == old(self).available@.len(),
            forall|c: int|
                0 <= c < old(self).available@.len() && c != id
                    ==> #[trigger] final(self).available@[c] == old(self).available@[c],
            old(self).available@[id as int] == 0 ==> r is None && final(self).available@ == old(
                self,
            ).available@,
            old(self).available@[id as int] > 0 ==> r == Some(
                (old(self).available@[id as int] - 1) as usize,
            ) && final(self).available@[id as int] == old(self).available@[id as int] - 1,
    {
        let avail: usize = self.available[id];
        if avail > 0 {
            self.available.set(id, avail - 1);
            proof {
                assert(self.available@ =~= old(self).available@.update(
                    id as int,
                    (avail - 1) as usize,
                ));
            }
            Some(avail - 1)
        } else {
            None
        }
    }

    /// Reads the block at an index handed out by `try_pop_index`.
    pub fn get(&self, i: usize) -> (r: &A)
        requires
            i < self.data@.len(),
        ensures
            *r == self.data@[i as int],
    {
        &self.data[i]
    }
}

/// The consumer side of one fetched block: the block and a cursor into
/// it. A consumer drains its current block sample by sample, in
/// production order, and swaps in the next fetched block when this one
/// is spent; only the waiting for that next block belongs to the thread
/// plumbing outside this crate.
#[derive(Clone, Debug)]
pub struct Block<A> {
    /// The block being drained.
    pub current: Vec<A>,
    /// How many of its samples were already handed out.
    pub i: usize,
}

impl<A> Block<A> where A: Copy {
    /// An empty cursor: exhausted until the first block arrives.
    pub fn new() -> (r: Block<A>)
        ensures
            r.current@.len() == 0,
            r.i == 0,
    {
        Block { current: Vec::new(), i: 0 }
    }

    /// Whether every sample of the current block was handed out.
    pub fn exhausted(&self) -> (r: bool)
        ensures
            r == (self.i >= self.current@.len()),
    {
        self.i >= self.current.len()
    }

    /// Replaces the spent block with a freshly fetched one and rewinds
    /// the cursor.
    pub fn refill(&mut self, block: Vec<A>)
        ensures
            final(self).current == block,
            final(self).i == 0,
    {
        self.current = block;
        self.i = 0;
    }

    /// The next unread sample of the current block, in order, or
    /// `None` once the block is spent.
    pub fn next_sample(&mut self) -> (r: Option<A>)
        ensures
            old(self).i < old(self).current@.len() ==> ({
                &&& r == Some(old(self).current@[old(self).i as int])
                &&& final(self).i == old(self).i + 1
                &&& final(self).current == old(self).current
            }),
            old(self).i >= old(self).current@.len() ==> r is None && *final(self) == *old(
                self,
            ),
    {
        if self.i < self.current.len() {
            let v: A = self.current[self.i];
            self.i = self.i + 1;
            Some(v)
        } else {
            None
        }
    }
}

} // verus!
