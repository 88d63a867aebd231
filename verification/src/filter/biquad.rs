//! Second-order (biquadratic) IIR filters.
//!
//! A biquad holds five normalized coefficients (`b0`, `b1`, `b2`
//! feed-forward and `a1`, `a2` feedback, pre-negated and normalized so
//! that `a0 == 1`) and four state values: the last two inputs and the last
//! two outputs. The state is updated by exactly one call per input sample,
//! newest value replacing oldest.

use vstd::prelude::*;
use crate::filter::{Filter, FilterDesign};
use crate::filter::convolve::{Convolve, lemma_wrap_identities};
use crate::signal::Signal;
use crate::signal::sources::Impulse;
use crate::signal::adapters::filter_state_at;

verus! {

/// A biquad filter: coefficients of type `C`, state samples of type `A`.
#[derive(Clone, Copy, Debug)]
pub struct Biquad<C, A> {
    /// Feed-forward coefficients, normalized by `a0`.
    pub b0: C,
    pub b1: C,
    pub b2: C,
    /// Feedback coefficients, negated and normalized by `a0`.
    pub na1: C,
    pub na2: C,

    /// The last two inputs, newest first.
    pub x1: A,
    pub x2: A,
    /// The last two outputs, newest first.
    pub y1: A,
    pub y2: A,
}

/// The output of a biquad in state `v` on input `a`:
/// `b0*a + b1*x1 + b2*x2 + a1'*y1 + a2'*y2` with `a1'`, `a2'` pre-negated,
/// accumulated in exactly this order.
pub open spec fn biquad_out<C, A: Convolve<C>>(v: Biquad<C, A>, a: A) -> A {
    A::zero_spec().acc_spec(a, v.b0).acc_spec(v.x1, v.b1).acc_spec(v.x2, v.b2).acc_spec(
        v.y1,
        v.na1,
    ).acc_spec(v.y2, v.na2)
}

impl<C, A> View for Biquad<C, A> {
    type V = Biquad<C, A>;

    open spec fn view(&self) -> Biquad<C, A> {
        *self
    }
}

/// Truncating division: the quotient of the magnitudes, negated when
/// the signs differ — as the `/` operator of a systems language
/// computes it on machine integers.
pub open spec fn div_trunc_spec(a: i64, b: i64) -> int {
    let q = crate::complex::abs_spec(a as int) / crate::complex::abs_spec(b as int);
    if (a >= 0) == (b >= 0) {
        q
    } else {
        -q
    }
}

/// Divides `a` by `b`, rounding toward zero.
fn div_trunc(a: i64, b: i64) -> (r: i64)
    requires
        b != 0,
        a != i64::MIN,
        b != i64::MIN,
    ensures
        r == div_trunc_spec(a, b),
{
    let ma: i64 = if a >= 0 {
        a
    } else {
        -a
    };
    let mb: i64 = if b >= 0 {
        b
    } else {
        -b
    };
    let q: u64 = (ma as u64) / (mb as u64);
    assert((ma as u64) / (mb as u64) <= ma as u64) by (nonlinear_arith)
        requires
            ma >= 0,
            mb > 0,
    ;
    if (a >= 0) == (b >= 0) {
        q as i64
    } else {
        -(q as i64)
    }
}

impl<A> Biquad<i64, A> where A: Convolve<i64> {
    /// A biquad from raw transfer-function coefficients, normalized by
    /// `a0` with truncating division and the feedback terms negated.
    /// State starts zeroed. `a0 == 0` is a division by zero and is
    /// rejected as a precondition; the smallest machine integer is kept
    /// out of the coefficients only because its negation overflows.
    pub fn new(a0: i64, a1: i64, a2: i64, b0: i64, b1: i64, b2: i64) -> (r: Biquad<i64, A>)
        requires
            a0 != 0,
            a0 != i64::MIN,
            a1 != i64::MIN,
            a2 != i64::MIN,
            b0 != i64::MIN,
            b1 != i64::MIN,
            b2 != i64::MIN,
        ensures
            r == (Biquad {
                b0: div_trunc_spec(b0, a0) as i64,
                b1: div_trunc_spec(b1, a0) as i64,
                b2: div_trunc_spec(b2, a0) as i64,
                na1: div_trunc_spec(-a1 as i64, a0) as i64,
                na2: div_trunc_spec(-a2 as i64, a0) as i64,
                x1: A::zero_spec(),
                x2: A::zero_spec(),
                y1: A::zero_spec(),
                y2: A::zero_spec(),
            }),
            r.inv(),
    {
        Biquad {
            b0: div_trunc(b0, a0),
            b1: div_trunc(b1, a0),
            b2: div_trunc(b2, a0),
            na1: div_trunc(-a1, a0),
            na2: div_trunc(-a2, a0),
            x1: A::zero(),
            x2: A::zero(),
            y1: A::zero(),
            y2: A::zero(),
        }
    }
}

impl<C, A> Filter<A> for Biquad<C, A> where A: Convolve<C>, C: Copy {
    type Output = A;

    open spec fn inv(&self) -> bool {
        true
    }

    open spec fn step_spec(v: Biquad<C, A>, a: A) -> Biquad<C, A> {
        Biquad { x1: a, x2: v.x1, y1: biquad_out(v, a), y2: v.y1, ..v }
    }

    open spec fn out_spec(v: Biquad<C, A>, a: A) -> A {
        biquad_out(v, a)
    }

    fn apply(&mut self, value: A) -> (r: A) {
        let mut out: A = A::zero();
        out.accumulate(&value, &self.b0);
        out.accumulate(&self.x1, &self.b1);
        out.accumulate(&self.x2, &self.b2);
        out.accumulate(&self.y1, &self.na1);
        out.accumulate(&self.y2, &self.na2);

        self.x2 = self.x1;
        self.x1 = value;
        self.y2 = self.y1;
        self.y1 = out;
        out
    }
}

/// Instantiating a biquad design resets its state to zero, so one design
/// yields independent, non-interfering instances.
impl<C, A> FilterDesign<A> for Biquad<C, A> where A: Convolve<C>, C: Copy {
    type Output = A;

    type Filter = Biquad<C, A>;

    open spec fn design_req(&self, rate: u32) -> bool {
        true
    }

    open spec fn design_view(&self, rate: u32) -> Biquad<C, A> {
        Biquad {
            x1: A::zero_spec(),
            x2: A::zero_spec(),
            y1: A::zero_spec(),
            y2: A::zero_spec(),
            ..*self
        }
    }

    fn design(self, rate: u32) -> (f: Biquad<C, A>) {
        Biquad { x1: A::zero(), x2: A::zero(), y1: A::zero(), y2: A::zero(), ..self }
    }
}

/// The impulse response of the first-order decay shape (`b1`, `b2` and
/// `a2` zero): `h[0] = b0`, `h[n] = h[n-1] * na1`, a geometric sequence
/// determined by the coefficients alone.
pub open spec fn lr_impulse_response(b0: i64, na1: i64, n: nat) -> i64
    decreases n,
{
    if n == 0 {
        b0
    } else {
        lr_impulse_response(b0, na1, (n - 1) as nat).wrapping_mul(na1)
    }
}

/// The state a first-order decay biquad reaches after consuming the
/// first `k` samples of a unit impulse.
proof fn lemma_lr_state(b0: i64, na1: i64, rate: u32, k: nat)
    ensures
        ({
            let imp = Impulse::<i64> { rate, first: true, zero_v: 0i64, one_v: 1i64 };
            let v0 = Biquad::<i64, i64> {
                b0,
                b1: 0,
                b2: 0,
                na1,
                na2: 0,
                x1: 0,
                x2: 0,
                y1: 0,
                y2: 0,
            };
            let vk = filter_state_at::<Impulse<i64>, Biquad<i64, i64>>(v0, imp, k);
            &&& vk.b0 == b0
            &&& vk.b1 == 0
            &&& vk.b2 == 0
            &&& vk.na1 == na1
            &&& vk.na2 == 0
            &&& vk.x1 == (if k == 1 { 1i64 } else { 0i64 })
            &&& vk.x2 == (if k == 2 { 1i64 } else { 0i64 })
            &&& vk.y1 == (if k >= 1 {
                lr_impulse_response(b0, na1, (k - 1) as nat)
            } else {
                0i64
            })
            &&& vk.y2 == (if k >= 2 {
                lr_impulse_response(b0, na1, (k - 2) as nat)
            } else {
                0i64
            })
        }),
    decreases k,
{
    lemma_wrap_identities();
    if k > 0 {
        lemma_lr_state(b0, na1, rate, (k - 1) as nat);
    }
}

/// Biquad impulse response determinism, for the first-order decay
/// shape: feeding a unit impulse to a freshly designed decay biquad
/// reproduces, at every index, exactly the geometric sequence computed
/// from its coefficients.
pub proof fn lemma_lr_impulse_response(b0: i64, na1: i64, rate: u32, n: nat)
    ensures
        ({
            let imp = Impulse::<i64> { rate, first: true, zero_v: 0i64, one_v: 1i64 };
            let v0 = Biquad::<i64, i64> {
                b0,
                b1: 0,
                b2: 0,
                na1,
                na2: 0,
                x1: 0,
                x2: 0,
                y1: 0,
                y2: 0,
            };
            let pipe = crate::signal::adapters::Filter { signal: imp, filter: v0 };
            pipe.out(n) == Some(lr_impulse_response(b0, na1, n))
        }),
{
    lemma_wrap_identities();
    lemma_lr_state(b0, na1, rate, n);
}

} // verus!
