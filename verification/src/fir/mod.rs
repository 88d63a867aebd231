//! A FIR variant with a warm-up drain policy.
//!
//! Unlike the pipeline FIR, which seeds its history with zeros and emits
//! from the first sample on, this filter suppresses output until its
//! window is fully populated, so its output carries no zero-padding
//! transient. It emits nothing for the first `N - 1` inputs and one
//! sample per input thereafter.

use vstd::prelude::*;
pub use crate::filter::convolve::Convolve;
use crate::filter::fir::conv_fold;

verus! {

/// A warm-up FIR: a coefficient vector and a history of the last inputs,
/// oldest first, that must fill before any output is produced.
#[derive(Clone, Debug)]
pub struct Fir<C, A> {
    /// The coefficient vector, applied oldest input first.
    pub coef: Vec<C>,
    /// The pending window, oldest input first; always shorter than the
    /// coefficient vector.
    pub buffer: Vec<A>,
}

impl<C, A> Fir<C, A> where A: Convolve<C> {
    /// Whether the window is in its steady state.
    pub open spec fn inv(&self) -> bool {
        self.buffer@.len() < self.coef@.len() || (self.coef@.len() == 0 && self.buffer@.len()
            == 0)
    }

    /// A warm-up FIR over the given coefficients, with an empty window.
    pub fn new(coef: Vec<C>) -> (r: Fir<C, A>)
        ensures
            r.coef@ == coef@,
            r.buffer@.len() == 0,
            r.inv(),
    {
        Fir { coef, buffer: Vec::new() }
    }

    /// Feeds one input. Yields `None` while the window is still filling,
    /// and afterwards the convolution of the coefficients with the full
    /// window, oldest input first.
    pub fn apply(&mut self, value: A) -> (r: Option<A>)
        requires
            old(self).inv(),
        ensures
            final(self).inv(),
            final(self).coef@ == old(self).coef@,
            r is Some <==> old(self).buffer@.len() + 1 >= old(self).coef@.len(),
            r is Some ==> r.unwrap() == conv_fold(
                old(self).coef@,
                old(self).buffer@.push(value),
                old(self).coef@.len() as int,
            ),
            r is Some ==> final(self).buffer@ == old(self).buffer@.push(value).drop_first(),
            r is None ==> final(self).buffer@ == old(self).buffer@.push(value),
    {
        self.buffer.push(value);
        if self.buffer.len() >= self.coef.len() {
            let n: usize = self.coef.len();
            let mut accum: A = A::zero();
            let mut j: usize = 0;
            while j < n
                invariant
                    n == self.coef@.len(),
                    n <= self.buffer@.len(),
                    0 <= j <= n,
                    accum == conv_fold(self.coef@, self.buffer@, j as int),
                decreases n - j,
            {
                accum.accumulate(&self.buffer[j], &self.coef[j]);
                j = j + 1;
            }
            self.buffer.remove(0);
            proof {
                assert(self.buffer@ =~= old(self).buffer@.push(value).drop_first());
            }
            Some(accum)
        } else {
            None
        }
    }
}

} // verus!
