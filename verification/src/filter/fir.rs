//! Finite-impulse-response filters: a weighted sum over a sliding window
//! of past inputs.
//!
//! The history buffer holds the last `N` inputs, most recent first, and is
//! seeded with additive-identity values, so output begins immediately with
//! the missing history treated as zero. This policy never changes the
//! sample count of a pipeline.

use vstd::prelude::*;
use crate::filter::{Filter, FilterDesign};
use crate::signal::Signal;
use crate::signal::sources::FromIter;
use crate::signal::adapters::filter_state_at;
use crate::filter::convolve::{Convolve, lemma_wadd_is_crop, lemma_wmul_is_crop, lemma_crop_add_left, lemma_crop_mul_left, lemma_wrap_identities};

verus! {

/// The convolve-accumulate fold of `coef` against `hist`, over the first
/// `n` positions, in index order: the value of
/// `zero + hist[0]*coef[0] + ... + hist[n-1]*coef[n-1]`
/// in the sample type's own arithmetic.
pub open spec fn conv_fold<C, A: Convolve<C>>(coef: Seq<C>, hist: Seq<A>, n: int) -> A
    decreases n,
{
    if n <= 0 {
        A::zero_spec()
    } else {
        conv_fold(coef, hist, n - 1).acc_spec(hist[n - 1], coef[n - 1])
    }
}

/// The abstract state of a FIR filter: its coefficients and its history,
/// most recent input first.
pub struct FirView<C, A> {
    pub coef: Seq<C>,
    pub hist: Seq<A>,
}

impl<C, A> FirView<C, A> {
    /// The history after `a` arrives: `a` in front, the oldest entry gone.
    pub open spec fn shifted(self, a: A) -> Seq<A> {
        if self.hist.len() == 0 {
            self.hist
        } else {
            seq![a] + self.hist.drop_last()
        }
    }
}

/// A FIR filter: a fixed coefficient vector and a sliding history of the
/// same length, most recent input first.
#[derive(Clone, Debug)]
pub struct Fir<C, A> {
    pub coef: Vec<C>,
    pub buffer: Vec<A>,
}

impl<C, A> View for Fir<C, A> {
    type V = FirView<C, A>;

    open spec fn view(&self) -> FirView<C, A> {
        FirView { coef: self.coef@, hist: self.buffer@ }
    }
}

impl<C, A> Fir<C, A> where A: Convolve<C> {
    /// A FIR filter over the given coefficients, with zeroed history.
    pub fn new(coef: Vec<C>) -> (r: Fir<C, A>)
        ensures
            r@.coef == coef@,
            r@.hist =~= Seq::new(coef@.len(), |i: int| A::zero_spec()),
            r.inv(),
    {
        let n: usize = coef.len();
        let mut buffer: Vec<A> = Vec::new();
        while buffer.len() < n
            invariant
                buffer@.len() <= n,
                forall|i: int| 0 <= i < buffer@.len() ==> buffer@[i] == A::zero_spec(),
            decreases n - buffer@.len(),
        {
            buffer.push(A::zero());
        }
        Fir { coef, buffer }
    }
}

impl<C, A> Filter<A> for Fir<C, A> where A: Convolve<C> {
    type Output = A;

    open spec fn inv(&self) -> bool {
        self.buffer@.len() == self.coef@.len()
    }

    open spec fn step_spec(v: FirView<C, A>, a: A) -> FirView<C, A> {
        FirView { coef: v.coef, hist: v.shifted(a) }
    }

    open spec fn out_spec(v: FirView<C, A>, a: A) -> A {
        conv_fold(v.coef, v.shifted(a), v.coef.len() as int)
    }

    fn apply(&mut self, value: A) -> (r: A) {
        if self.buffer.len() > 0 {
            self.buffer.pop();
            self.buffer.insert(0, value);
            assert(self.buffer@ =~= old(self)@.shifted(value));
        }
        let n: usize = self.coef.len();
        let mut accum: A = A::zero();
        let mut j: usize = 0;
        while j < n
            invariant
                n == self.coef@.len(),
                self.buffer@.len() == n,
                0 <= j <= n,
                accum == conv_fold(self.coef@, self.buffer@, j as int),
            decreases n - j,
        {
            accum.accumulate(&self.buffer[j], &self.coef[j]);
            j = j + 1;
        }
        accum
    }
}

impl<C, A> FilterDesign<A> for Fir<C, A> where A: Convolve<C> {
    type Output = A;

    type Filter = Fir<C, A>;

    open spec fn design_req(&self, rate: u32) -> bool {
        true
    }

    open spec fn design_view(&self, rate: u32) -> FirView<C, A> {
        FirView { coef: self.coef@, hist: Seq::new(self.coef@.len(), |i: int| A::zero_spec()) }
    }

    fn design(self, rate: u32) -> (f: Fir<C, A>) {
        Fir::new(self.coef)
    }
}

impl<C, A> FilterDesign<A> for Vec<C> where A: Convolve<C> {
    type Output = A;

    type Filter = Fir<C, A>;

    open spec fn design_req(&self, rate: u32) -> bool {
        true
    }

    open spec fn design_view(&self, rate: u32) -> FirView<C, A> {
        FirView { coef: self@, hist: Seq::new(self@.len(), |i: int| A::zero_spec()) }
    }

    fn design(self, rate: u32) -> (f: Fir<C, A>) {
        Fir::new(self)
    }
}

/// The pointwise linear combination `a*xs + b*ys`, in wrapping sample
/// arithmetic.
pub open spec fn lin_comb(a: i64, xs: Seq<i64>, b: i64, ys: Seq<i64>) -> Seq<i64> {
    Seq::new(xs.len(), |i: int| a.wrapping_mul(xs[i]).wrapping_add(b.wrapping_mul(ys[i])))
}

/// FIR linearity: convolution is a pure linear operation. For any
/// coefficient vector, any two histories and any scalars, the
/// convolve-accumulate fold over the combined history `a*xs + b*ys` is
/// the same combination of the two folds, in the sample ring.
pub proof fn lemma_fir_linearity(coef: Seq<i64>, a: i64, b: i64, xs: Seq<i64>, ys: Seq<i64>, n: int)
    requires
        xs.len() == ys.len(),
        n <= coef.len(),
        n <= xs.len(),
    ensures
        conv_fold::<i64, i64>(coef, lin_comb(a, xs, b, ys), n) == a.wrapping_mul(
            conv_fold::<i64, i64>(coef, xs, n),
        ).wrapping_add(b.wrapping_mul(conv_fold::<i64, i64>(coef, ys, n))),
    decreases n,
{
    lemma_wrap_identities();
    if n > 0 {
        lemma_fir_linearity(coef, a, b, xs, ys, n - 1);
        let fx = conv_fold::<i64, i64>(coef, xs, n - 1);
        let fy = conv_fold::<i64, i64>(coef, ys, n - 1);
        let xn = xs[n - 1];
        let yn = ys[n - 1];
        let c = coef[n - 1];
        let crop = |m: int| vstd::wrapping::i64_specs::signed_crop(m);

        // the previous combined fold, as one reduction
        lemma_wmul_is_crop(a, fx);
        lemma_wmul_is_crop(b, fy);
        lemma_wadd_is_crop(a.wrapping_mul(fx), b.wrapping_mul(fy));
        lemma_crop_add_left(a * fx, b.wrapping_mul(fy) as int);
        lemma_crop_add_left(b * fy, a * fx);
        let prev_c = conv_fold::<i64, i64>(coef, lin_comb(a, xs, b, ys), n - 1);
        assert(prev_c == crop(a * fx + b * fy));

        // the combined input sample, as one reduction
        lemma_wmul_is_crop(a, xn);
        lemma_wmul_is_crop(b, yn);
        lemma_wadd_is_crop(a.wrapping_mul(xn), b.wrapping_mul(yn));
        lemma_crop_add_left(a * xn, b.wrapping_mul(yn) as int);
        lemma_crop_add_left(b * yn, a * xn);
        let comb_n = lin_comb(a, xs, b, ys)[n - 1];
        assert(comb_n == crop(a * xn + b * yn));

        // the combined accumulate step, as one reduction
        lemma_wmul_is_crop(comb_n, c);
        lemma_crop_mul_left(a * xn + b * yn, c as int);
        lemma_wadd_is_crop(prev_c, comb_n.wrapping_mul(c));
        lemma_crop_add_left(a * fx + b * fy, comb_n.wrapping_mul(c) as int);
        lemma_crop_add_left((a * xn + b * yn) * c, a * fx + b * fy);
        assert(conv_fold::<i64, i64>(coef, lin_comb(a, xs, b, ys), n) == crop(
            a * fx + b * fy + (a * xn + b * yn) * c,
        ));

        // the two plain folds, each as one reduction
        lemma_wmul_is_crop(xn, c);
        lemma_wadd_is_crop(fx, xn.wrapping_mul(c));
        lemma_crop_add_left(xn * c, fx as int);
        assert(conv_fold::<i64, i64>(coef, xs, n) == crop(fx + xn * c));
        lemma_wmul_is_crop(yn, c);
        lemma_wadd_is_crop(fy, yn.wrapping_mul(c));
        lemma_crop_add_left(yn * c, fy as int);
        assert(conv_fold::<i64, i64>(coef, ys, n) == crop(fy + yn * c));

        // their combination, as one reduction
        lemma_wmul_is_crop(a, crop(fx + xn * c) as i64);
        lemma_crop_mul_left(fx + xn * c, a as int);
        lemma_wmul_is_crop(b, crop(fy + yn * c) as i64);
        lemma_crop_mul_left(fy + yn * c, b as int);
        lemma_wadd_is_crop(
            a.wrapping_mul(conv_fold::<i64, i64>(coef, xs, n)),
            b.wrapping_mul(conv_fold::<i64, i64>(coef, ys, n)),
        );
        lemma_crop_add_left(
            a * (fx + xn * c),
            b.wrapping_mul(conv_fold::<i64, i64>(coef, ys, n)) as int,
        );
        lemma_crop_add_left(b * (fy + yn * c), a * (fx + xn * c));
        assert(a.wrapping_mul(conv_fold::<i64, i64>(coef, xs, n)).wrapping_add(
            b.wrapping_mul(conv_fold::<i64, i64>(coef, ys, n)),
        ) == crop(a * (fx + xn * c) + b * (fy + yn * c)));

        // and the two exact integer expressions agree
        assert(a * fx + b * fy + (a * xn + b * yn) * c == a * (fx + xn * c) + b * (fy + yn
            * c)) by (nonlinear_arith);
    }
}

/// FIR linearity at the filter level: two FIR instances with the same
/// coefficients, one holding history `hx` and fed `x`, the other
/// holding `hy` and fed `y`, and a third holding the combined history
/// `a*hx + b*hy` and fed `a*x + b*y`, satisfy
/// `out_c == a*out_x + b*out_y` in the sample ring.
pub proof fn lemma_fir_out_linear(
    coef: Seq<i64>,
    a: i64,
    b: i64,
    hx: Seq<i64>,
    hy: Seq<i64>,
    x: i64,
    y: i64,
)
    requires
        hx.len() == coef.len(),
        hy.len() == coef.len(),
    ensures
        ({
            let vx = FirView { coef, hist: hx };
            let vy = FirView { coef, hist: hy };
            let vc = FirView { coef, hist: lin_comb(a, hx, b, hy) };
            let xc = a.wrapping_mul(x).wrapping_add(b.wrapping_mul(y));
            <Fir<i64, i64> as Filter<i64>>::out_spec(vc, xc) == a.wrapping_mul(
                <Fir<i64, i64> as Filter<i64>>::out_spec(vx, x),
            ).wrapping_add(b.wrapping_mul(<Fir<i64, i64> as Filter<i64>>::out_spec(vy, y)))
        }),
{
    let vx = FirView { coef, hist: hx };
    let vy = FirView { coef, hist: hy };
    let vc = FirView { coef, hist: lin_comb(a, hx, b, hy) };
    let xc = a.wrapping_mul(x).wrapping_add(b.wrapping_mul(y));
    if coef.len() == 0 {
        lemma_wrap_identities();
    } else {
        assert(vc.shifted(xc) =~= lin_comb(a, vx.shifted(x), b, vy.shifted(y)));
        lemma_fir_linearity(
            coef,
            a,
            b,
            vx.shifted(x),
            vy.shifted(y),
            coef.len() as int,
        );
    }
}

/// The FIR history (most recent input first) after the first `k`
/// samples of `xs` have been fed to a zero-seeded filter with `n`
/// coefficients.
pub open spec fn fir_hist_after(n: int, xs: Seq<i64>, k: int) -> Seq<i64> {
    Seq::new(
        n as nat,
        |j: int|
            if 0 <= k - 1 - j && k - 1 - j < xs.len() {
                xs[k - 1 - j]
            } else {
                0i64
            },
    )
}

/// Running a zero-seeded FIR over the first `k` samples of a
/// materialized source leaves exactly the window of the last inputs in
/// its history.
proof fn lemma_fir_run_hist(f0: FirView<i64, i64>, src: FromIter<i64>, k: nat)
    requires
        src.pos == 0,
        f0.hist == Seq::new(f0.coef.len(), |j: int| 0i64),
        k <= src.data@.len(),
    ensures
        ({
            let vk = filter_state_at::<FromIter<i64>, Fir<i64, i64>>(f0, src, k);
            &&& vk.coef == f0.coef
            &&& vk.hist =~= fir_hist_after(f0.coef.len() as int, src.data@, k as int)
        }),
    decreases k,
{
    if k == 0 {
        assert(f0.hist =~= fir_hist_after(f0.coef.len() as int, src.data@, 0));
    } else {
        lemma_fir_run_hist(f0, src, (k - 1) as nat);
        let prev = filter_state_at::<FromIter<i64>, Fir<i64, i64>>(f0, src, (k - 1) as nat);
        assert(src.out((k - 1) as nat) == Some(src.data@[k - 1]));
        let vk = filter_state_at::<FromIter<i64>, Fir<i64, i64>>(f0, src, k);
        assert(vk.hist == prev.shifted(src.data@[k - 1]));
        assert(vk.hist =~= fir_hist_after(f0.coef.len() as int, src.data@, k as int));
    }
}

/// FIR linearity over whole streams: three pipelines with the same
/// coefficients and fresh zero-seeded state, one fed `xs`, one fed
/// `ys`, and one fed the combined stream `a*xs + b*ys`, produce, at
/// every index, the same combination of outputs: the `i`-th combined
/// output is `a` times the `i`-th output on `xs` plus `b` times the
/// `i`-th output on `ys`, in the sample ring.
pub proof fn lemma_fir_stream_linear(
    a: i64,
    b: i64,
    px: crate::signal::adapters::Filter<FromIter<i64>, Fir<i64, i64>>,
    py: crate::signal::adapters::Filter<FromIter<i64>, Fir<i64, i64>>,
    pc: crate::signal::adapters::Filter<FromIter<i64>, Fir<i64, i64>>,
    i: nat,
)
    requires
        px.signal.pos == 0,
        py.signal.pos == 0,
        pc.signal.pos == 0,
        py.filter@.coef == px.filter@.coef,
        pc.filter@.coef == px.filter@.coef,
        px.filter@.hist == Seq::new(px.filter@.coef.len(), |j: int| 0i64),
        py.filter@.hist == Seq::new(px.filter@.coef.len(), |j: int| 0i64),
        pc.filter@.hist == Seq::new(px.filter@.coef.len(), |j: int| 0i64),
        py.signal.data@.len() == px.signal.data@.len(),
        pc.signal.data@ == lin_comb(a, px.signal.data@, b, py.signal.data@),
        i < px.signal.data@.len(),
    ensures
        px.out(i) is Some,
        py.out(i) is Some,
        pc.out(i) is Some,
        pc.out(i).unwrap() == a.wrapping_mul(px.out(i).unwrap()).wrapping_add(
            b.wrapping_mul(py.out(i).unwrap()),
        ),
{
    lemma_wrap_identities();
    let coef = px.filter@.coef;
    let n = coef.len() as int;
    let xs = px.signal.data@;
    let ys = py.signal.data@;
    lemma_fir_run_hist(px.filter@, px.signal, i);
    lemma_fir_run_hist(py.filter@, py.signal, i);
    lemma_fir_run_hist(pc.filter@, pc.signal, i);
    let hx = fir_hist_after(n, xs, i as int);
    let hy = fir_hist_after(n, ys, i as int);
    let hc = fir_hist_after(n, pc.signal.data@, i as int);
    assert(hc =~= lin_comb(a, hx, b, hy)) by {
        assert forall|j: int| 0 <= j < n implies hc[j] == lin_comb(a, hx, b, hy)[j] by {
            if 0 <= i - 1 - j && i - 1 - j < xs.len() {
                assert(pc.signal.data@[i - 1 - j] == a.wrapping_mul(xs[i - 1 - j]).wrapping_add(
                    b.wrapping_mul(ys[i - 1 - j]),
                ));
            } else {
                assert(a.wrapping_mul(0i64).wrapping_add(b.wrapping_mul(0i64)) == 0i64);
            }
        }
    }
    assert(pc.signal.data@[i as int] == a.wrapping_mul(xs[i as int]).wrapping_add(
        b.wrapping_mul(ys[i as int]),
    ));
    lemma_fir_out_linear(coef, a, b, hx, hy, xs[i as int], ys[i as int]);
    assert(filter_state_at::<FromIter<i64>, Fir<i64, i64>>(pc.filter@, pc.signal, i)
        == (FirView { coef, hist: lin_comb(a, hx, b, hy) }));
}

} // verus!
