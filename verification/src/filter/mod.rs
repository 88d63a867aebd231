//! Stateful per-sample transforms and their rate-independent designs.
//!
//! A `Filter` consumes one input sample per call and produces one output
//! sample, updating its internal state deterministically. A `FilterDesign`
//! is an immutable, rate-independent specification; instantiating it at a
//! concrete sample rate yields a filter with freshly zeroed state, so the
//! same design can build independent, non-interfering filter instances.

use vstd::prelude::*;

pub mod convolve;
pub mod simple;
pub mod fir;
pub mod biquad;
pub mod derivative;
pub mod pll;

verus! {

/// A stateful per-sample transform: a deterministic Mealy machine.
///
/// `apply` is called exactly once per input sample. The filter's state is
/// abstracted by its view; the contract pins both the output and the
/// successor view to spec-level functions of the current view and the
/// input, so a filter's entire output sequence is determined by its
/// initial state and its input sequence.
pub trait Filter<A>: Sized + View {
    type Output;

    /// The internal well-formedness of this filter's state.
    spec fn inv(&self) -> bool;

    /// The state view after a filter in state `v` consumes `a`.
    spec fn step_spec(v: Self::V, a: A) -> Self::V;

    /// The output of a filter in state `v` on consuming `a`.
    spec fn out_spec(v: Self::V, a: A) -> Self::Output;

    /// Feeds one input sample and yields one output sample.
    fn apply(&mut self, value: A) -> (r: Self::Output)
        requires
            old(self).inv(),
        ensures
            final(self).inv(),
            final(self)@ == Self::step_spec(old(self)@, value),
            r == Self::out_spec(old(self)@, value),
    ;
}

/// An immutable filter specification, instantiated at a sample rate.
pub trait FilterDesign<A>: Sized {
    type Output;

    type Filter: Filter<A, Output = Self::Output>;

    /// The rates this design accepts.
    spec fn design_req(&self, rate: u32) -> bool;

    /// The state view of the filter this design denotes at `rate`.
    spec fn design_view(&self, rate: u32) -> <Self::Filter as View>::V;

    /// Builds a fresh filter instance, with zeroed state, for a signal of
    /// the given sample rate.
    fn design(self, rate: u32) -> (f: Self::Filter)
        requires
            self.design_req(rate),
        ensures
            f@ == self.design_view(rate),
            f.inv(),
    ;
}

} // verus!
