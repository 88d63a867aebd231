//! The pull-based, rate-tagged signal abstraction.
//!
//! A signal produces one sample per call of `next`, or `None` once it is
//! permanently exhausted, and reports a sample rate that never changes
//! over the object's lifetime. Adapters wrap a signal by value and expose
//! the same interface, so arbitrarily deep chains can be built.
//!
//! Most signals in this crate are *exact*: the full sequence of samples
//! they will emit is a mathematical function of their current state,
//! exposed as the spec function `out`. `out(i)` is the sample that the
//! `i+1`-th future call of `next` will yield; pulling one sample shifts
//! the whole stream left by one. A signal wrapping an outside collaborator
//! whose output is not a function of the state (such as a rate converter)
//! is not exact; for it only the base clauses hold: the rate is constant
//! and exhaustion is permanent.

use vstd::prelude::*;

pub mod times;
pub mod sources;
pub mod adapters;

verus! {

/// A pull-based, rate-tagged, possibly infinite sequence of samples.
pub trait Signal: Sized {
    type Sample;

    /// The fixed sample rate, in samples per second.
    spec fn rate_spec(&self) -> u32;

    /// The well-formedness of this signal's state; established by
    /// constructors and preserved by `next`.
    spec fn wf(&self) -> bool;

    /// Whether the sample stream is a function of the state, so that
    /// `out` describes it.
    spec fn exact(&self) -> bool;

    /// The sample that the `i+1`-th future call of `next` will yield,
    /// for exact signals.
    spec fn out(&self, i: nat) -> Option<Self::Sample>;

    /// Whether this signal is permanently exhausted.
    spec fn done(&self) -> bool;

    /// For exact, well-formed signals: exhaustion is permanent within the
    /// stream, and `done` means the stream is over.
    proof fn lemma_stream_wf(&self)
        requires
            self.wf(),
            self.exact(),
        ensures
            forall|i: nat, j: nat|
                #![trigger self.out(i), self.out(j)]
                i <= j && self.out(i) is None ==> self.out(j) is None,
            self.done() ==> self.out(0) is None,
    ;

    /// The sample rate. Constant: `next` never changes it.
    fn rate(&self) -> (r: u32)
        requires
            self.wf(),
        ensures
            r == self.rate_spec(),
    ;

    /// Produces the next sample, or `None` exactly when the signal is
    /// exhausted; after the first `None` every later call yields `None`.
    fn next(&mut self) -> (r: Option<Self::Sample>)
        requires
            old(self).wf(),
        ensures
            final(self).wf(),
            final(self).rate_spec() == old(self).rate_spec(),
            old(self).exact() ==> final(self).exact(),
            old(self).exact() ==> r == old(self).out(0),
            old(self).exact() ==> forall|i: nat| #[trigger]
                final(self).out(i) == old(self).out(i + 1),
            old(self).done() ==> r is None,
            r is None ==> final(self).done(),
    ;
}

} // verus!
