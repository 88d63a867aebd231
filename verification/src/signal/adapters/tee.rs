//! Fan-out of one signal into two independently paced consumer views.
//!
//! Two logical cursors share one physical upstream. The shared state
//! holds a backlog of samples the lagging branch has not consumed yet and
//! an owner flag naming that lagging branch. A branch that is ahead pulls
//! the upstream and leaves a copy in the backlog for the other branch;
//! the lagging branch drains the backlog for free before it takes over
//! driving. Both branches therefore observe the exact same sequence of
//! upstream values, in order, with nothing skipped or duplicated — at the
//! cost of an unbounded backlog if one branch stalls forever.
//!
//! This is the single-owner core of the fan-out: callers address the two
//! branches by index through one handle. Sharing the two branches across
//! threads is wrapping this in reference-counted mutual exclusion, which
//! is plumbing outside this crate's scope.

use vstd::prelude::*;
use crate::signal::Signal;

verus! {

/// The shared tee state: the upstream, the lagging branch's backlog, and
/// the flag naming the lagging branch.
#[derive(Clone, Debug)]
pub struct TeeBuffer<S: Signal> {
    /// The shared upstream signal.
    pub signal: S,
    /// Samples produced but not yet seen by the lagging branch.
    pub backlog: Vec<S::Sample>,
    /// Which branch is lagging: the owner of the backlog.
    pub owner: bool,
}

impl<S> TeeBuffer<S> where S: Signal, S::Sample: Copy {
    /// The upstream's well-formedness carries over.
    pub open spec fn wf(&self) -> bool {
        self.signal.wf()
    }

    /// The shared rate of both branches.
    pub open spec fn rate_spec(&self) -> u32 {
        self.signal.rate_spec()
    }

    /// Whether both branch streams are functions of the state.
    pub open spec fn exact(&self) -> bool {
        self.signal.exact()
    }

    /// Whether branch `id` is permanently exhausted: its share of the
    /// backlog is drained and the upstream is done.
    pub open spec fn branch_done(&self, id: bool) -> bool {
        (id == self.owner ==> self.backlog@.len() == 0) && self.signal.done()
    }

    /// The sample that branch `id` will see `i+1` pulls from now: the
    /// lagging branch first drains the backlog, then continues with the
    /// upstream; the ahead branch reads the upstream directly.
    pub open spec fn branch_out(&self, id: bool, i: nat) -> Option<S::Sample> {
        if id == self.owner {
            if i < self.backlog@.len() {
                Some(self.backlog@[i as int])
            } else {
                self.signal.out((i - self.backlog@.len()) as nat)
            }
        } else {
            self.signal.out(i)
        }
    }

    /// A fresh tee over `signal`. Both branches will see exactly the
    /// upstream stream.
    pub fn new(signal: S) -> (r: TeeBuffer<S>)
        requires
            signal.wf(),
        ensures
            r.wf(),
            r.signal == signal,
            r.backlog@.len() == 0,
            r.owner == false,
            r.rate_spec() == signal.rate_spec(),
            forall|id: bool, i: nat| #[trigger] r.branch_out(id, i) == signal.out(i),
    {
        TeeBuffer { signal, backlog: Vec::new(), owner: false }
    }

    /// The shared sample rate.
    pub fn rate(&self) -> (r: u32)
        requires
            self.wf(),
        ensures
            r == self.rate_spec(),
    {
        self.signal.rate()
    }

    /// Produces the next sample for branch `id`. The branch sees its own
    /// stream advance by one; the other branch's stream is untouched.
    pub fn next(&mut self, id: bool) -> (r: Option<S::Sample>)
        requires
            old(self).wf(),
        ensures
            final(self).wf(),
            final(self).rate_spec() == old(self).rate_spec(),
            old(self).exact() ==> final(self).exact(),
            old(self).exact() ==> r == old(self).branch_out(id, 0),
            old(self).exact() ==> forall|i: nat| #[trigger]
                final(self).branch_out(id, i) == old(self).branch_out(id, i + 1),
            old(self).exact() ==> forall|b: bool, i: nat|
                b != id ==> #[trigger] final(self).branch_out(b, i) == old(self).branch_out(b, i),
            old(self).branch_done(id) ==> r is None,
            r is None ==> final(self).branch_done(id),
    {
        if self.owner == id && self.backlog.len() > 0 {
            let v: S::Sample = self.backlog.remove(0);
            proof {
                if old(self).exact() {
                    assert forall|i: nat| #[trigger] self.branch_out(id, i) == old(
                        self,
                    ).branch_out(id, i + 1) by {
                        assert(self.backlog@ =~= old(self).backlog@.subrange(
                            1,
                            old(self).backlog@.len() as int,
                        ));
                    }
                    assert forall|b: bool, i: nat|
                        b != id implies #[trigger] self.branch_out(b, i) == old(self).branch_out(
                        b,
                        i,
                    ) by {}
                }
            }
            Some(v)
        } else {
            match self.signal.next() {
                Some(v) => {
                    self.backlog.push(v);
                    self.owner = !id;
                    proof {
                        if old(self).exact() {
                            assert forall|i: nat| #[trigger] self.branch_out(id, i) == old(
                                self,
                            ).branch_out(id, i + 1) by {
                                assert(self.signal.out(i) == old(self).signal.out(i + 1));
                            }
                            assert forall|b: bool, i: nat|
                                b != id implies #[trigger] self.branch_out(b, i) == old(
                                self,
                            ).branch_out(b, i) by {
                                let len = old(self).backlog@.len();
                                if i < len {
                                } else if i == len {
                                    assert(self.backlog@[i as int] == old(self).signal.out(0).unwrap());
                                } else {
                                    assert(self.signal.out((i - len - 1) as nat) == old(
                                        self,
                                    ).signal.out((i - len) as nat));
                                }
                            }
                        }
                    }
                    Some(v)
                },
                None => {
                    proof {
                        if old(self).exact() {
                            old(self).signal.lemma_stream_wf();
                            assert forall|i: nat| #[trigger] self.branch_out(id, i) == old(
                                self,
                            ).branch_out(id, i + 1) by {
                                assert(self.signal.out(i) == old(self).signal.out(i + 1));
                                assert(old(self).signal.out(i) is None);
                                assert(old(self).signal.out(i + 1) is None);
                            }
                            assert forall|b: bool, i: nat|
                                b != id implies #[trigger] self.branch_out(b, i) == old(
                                self,
                            ).branch_out(b, i) by {
                                let len = old(self).backlog@.len();
                                assert(self.signal.out(i) == old(self).signal.out(i + 1));
                                if i >= len {
                                    assert(self.signal.out((i - len) as nat) == old(
                                        self,
                                    ).signal.out((i - len + 1) as nat));
                                    assert(old(self).signal.out((i - len) as nat) is None);
                                    assert(old(self).signal.out((i - len + 1) as nat) is None);
                                }
                            }
                        }
                    }
                    None
                },
            }
        }
    }
}

/// Tee completeness: on a fresh tee, each branch's stream is exactly the
/// source stream — collecting either branch in full reproduces the
/// source with no sample skipped or duplicated, and each `next` call
/// leaves the other branch's stream untouched.
pub proof fn lemma_tee_branches_complete<S>(t: TeeBuffer<S>) where S: Signal, S::Sample: Copy
    requires
        t.wf(),
        t.backlog@.len() == 0,
    ensures
        forall|id: bool, i: nat| #[trigger] t.branch_out(id, i) == t.signal.out(i),
{
}

} // verus!
