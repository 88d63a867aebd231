//! Phase-locked-loop carrier recovery.
//!
//! The PLL tracks a periodic input by keeping its own reference phasor
//! and, once per complex input sample:
//!
//! 1. forms the phase error `c = input * conj(reference)`;
//! 2. runs `c` through the loop filter, takes its argument and scales it
//!    by the loop gain, giving the phase correction;
//! 3. advances the normalized phase accumulator by the reference step
//!    plus the correction, wrapped into one turn;
//! 4. rebuilds the reference phasor at the new phase;
//! 5. runs the real part of `c` through the lock-detect filter, giving
//!    a lock confidence;
//! 6. runs the corrected frequency through the output filter;
//! 7. emits the tracked frequency when the confidence clears the lock
//!    threshold, and `None` otherwise. An unlocked sample is not an
//!    error and not end-of-stream: it means "no usable estimate here",
//!    and downstream pipelines substitute their own default.
//!
//! The three sub-filters are arbitrary designs, so the loop dynamics are
//! wholly the caller's choice.

use vstd::prelude::*;
use crate::filter::{Filter, FilterDesign};
use crate::complex::{
    Complex, arg_spec, arg_fx, fxmul, fxmul_spec, turn_mod, unit_phasor, unit_phasor_spec,
    lemma_unit_phasor_nonzero, lemma_unit_phasor_bounds, TURN, AMPLITUDE, FX_ONE,
};
use crate::signal::sources::tone_phase;
use crate::filter::simple::Identity;
use crate::filter::convolve::{lemma_wmul_is_crop, lemma_crop_in_range};

verus! {

/// The lock threshold: an in-phase error level of one hundredth of the
/// squared phasor amplitude `AMPLITUDE * AMPLITUDE`.
pub const LOCK_THRESHOLD: i64 = 2684354;

/// A PLL design: the reference frequency in Hz, the loop gain scaled by
/// `FX_ONE`, and the three sub-filter designs.
#[derive(Clone, Copy, Debug)]
pub struct PllDesign<L, O, K> {
    /// The reference frequency to lock onto, in Hz.
    pub reference: u32,
    /// The loop gain, in `FX_ONE` units.
    pub gain: i64,
    /// The design of the filter on the complex phase error.
    pub loopfilter: L,
    /// The design of the filter on the tracked output frequency.
    pub outputfilter: O,
    /// The design of the filter on the in-phase error.
    pub lockfilter: K,
}

impl<L, O, K> PllDesign<L, O, K> {
    /// A PLL design from its reference frequency, loop gain and three
    /// sub-filter designs.
    pub fn new(reference: u32, gain: i64, loopfilter: L, outputfilter: O, lockfilter: K) -> (r:
        PllDesign<L, O, K>)
        ensures
            r == (PllDesign { reference, gain, loopfilter, outputfilter, lockfilter }),
    {
        PllDesign { reference, gain, loopfilter, outputfilter, lockfilter }
    }
}

/// A PLL instance at a concrete sample rate.
#[derive(Clone, Copy, Debug)]
pub struct Pll<L, O, K> {
    /// The sample rate this instance was designed for.
    pub rate: u32,
    /// The reference frequency, as turn units per sample.
    pub refstep: i64,
    /// The loop gain, in `FX_ONE` units.
    pub gain: i64,
    pub loopfilter: L,
    pub outputfilter: O,
    pub lockfilter: K,
    /// The normalized phase accumulator, in `[0, TURN)`.
    pub nphase: i64,
    /// The current reference phasor.
    pub value: Complex,
}

/// The abstract state of a PLL: its parameters, the views of its three
/// sub-filters, and its phase state.
pub struct PllView<LV, OV, KV> {
    pub rate: u32,
    pub refstep: i64,
    pub gain: i64,
    pub loopv: LV,
    pub outputv: OV,
    pub lockv: KV,
    pub nphase: i64,
    pub value: Complex,
}

impl<L, O, K> View for Pll<L, O, K> where L: View, O: View, K: View {
    type V = PllView<L::V, O::V, K::V>;

    open spec fn view(&self) -> PllView<L::V, O::V, K::V> {
        PllView {
            rate: self.rate,
            refstep: self.refstep,
            gain: self.gain,
            loopv: self.loopfilter@,
            outputv: self.outputfilter@,
            lockv: self.lockfilter@,
            nphase: self.nphase,
            value: self.value,
        }
    }
}

/// The tracked frequency in Hz that a phase correction of `pd` turn
/// units per sample stands for, rounded toward zero.
pub open spec fn pll_hz_spec(pd: int, rate: u32) -> int {
    if pd >= 0 {
        pd * rate / (TURN as int)
    } else {
        -((-pd) * rate / (TURN as int))
    }
}

/// Converts a phase correction to Hz.
fn pll_hz(pd: i64, rate: u32) -> (r: i64)
    requires
        -0x4000_0000_0000 <= pd <= 0x4000_0000_0000,
    ensures
        r == pll_hz_spec(pd as int, rate),
{
    if pd >= 0 {
        proof {
            assert(0 <= (pd as int) * (rate as int) <= 0x4000_0000_0000 * 0x1_0000_0000)
                by (nonlinear_arith)
                requires
                    0 <= pd <= 0x4000_0000_0000,
                    0 <= rate <= 0xffff_ffff,
            ;
            assert(((pd as int) * (rate as int)) / 0x1_0000_0000 <= 0x4000_0000_0000)
                by (nonlinear_arith)
                requires
                    0 <= (pd as int) * (rate as int) <= 0x4000_0000_0000 * 0x1_0000_0000,
            ;
        }
        let q: u128 = (pd as u128 * rate as u128) / (TURN as u128);
        q as i64
    } else {
        let m: i64 = -pd;
        proof {
            assert(0 <= (m as int) * (rate as int) <= 0x4000_0000_0000 * 0x1_0000_0000)
                by (nonlinear_arith)
                requires
                    0 <= m <= 0x4000_0000_0000,
                    0 <= rate <= 0xffff_ffff,
            ;
            assert(((m as int) * (rate as int)) / 0x1_0000_0000 <= 0x4000_0000_0000)
                by (nonlinear_arith)
                requires
                    0 <= (m as int) * (rate as int) <= 0x4000_0000_0000 * 0x1_0000_0000,
            ;
        }
        let q: u128 = (m as u128 * rate as u128) / (TURN as u128);
        -(q as i64)
    }
}

/// The complex phase error between the input and the reference phasor.
pub open spec fn pll_error<LV, OV, KV>(v: PllView<LV, OV, KV>, a: Complex) -> Complex {
    a.mul_spec(v.value.conj_spec())
}

/// The phase correction the loop applies on input `a`.
pub open spec fn pll_phasedif<L, O, K>(
    v: PllView<L::V, O::V, K::V>,
    a: Complex,
) -> int where L: Filter<Complex, Output = Complex>, O: Filter<i64, Output = i64>, K: Filter<
    i64,
    Output = i64,
> {
    fxmul_spec(v.gain, arg_spec(L::out_spec(v.loopv, pll_error(v, a))) as i64)
}

/// The successor state of a PLL on input `a`.
pub open spec fn pll_step_spec<L, O, K>(
    v: PllView<L::V, O::V, K::V>,
    a: Complex,
) -> PllView<L::V, O::V, K::V> where L: Filter<Complex, Output = Complex>, O: Filter<
    i64,
    Output = i64,
>, K: Filter<i64, Output = i64> {
    let c = pll_error(v, a);
    let pd = pll_phasedif::<L, O, K>(v, a);
    let np = (v.nphase + v.refstep + pd) % (TURN as int);
    PllView {
        rate: v.rate,
        refstep: v.refstep,
        gain: v.gain,
        loopv: L::step_spec(v.loopv, c),
        outputv: O::step_spec(v.outputv, pll_hz_spec(pd, v.rate) as i64),
        lockv: K::step_spec(v.lockv, c.re),
        nphase: np as i64,
        value: unit_phasor_spec(np),
    }
}

/// The output of a PLL on input `a`: the filtered tracked frequency if
/// the lock confidence clears the threshold, `None` otherwise.
pub open spec fn pll_out_spec<L, O, K>(
    v: PllView<L::V, O::V, K::V>,
    a: Complex,
) -> Option<i64> where L: Filter<Complex, Output = Complex>, O: Filter<i64, Output = i64>, K:
    Filter<i64, Output = i64> {
    let c = pll_error(v, a);
    let pd = pll_phasedif::<L, O, K>(v, a);
    if K::out_spec(v.lockv, c.re) > LOCK_THRESHOLD {
        Some(O::out_spec(v.outputv, pll_hz_spec(pd, v.rate) as i64))
    } else {
        None
    }
}

impl<L, O, K> Filter<Complex> for Pll<L, O, K> where
    L: Filter<Complex, Output = Complex>,
    O: Filter<i64, Output = i64>,
    K: Filter<i64, Output = i64>,
{
    type Output = Option<i64>;

    open spec fn inv(&self) -> bool {
        self.loopfilter.inv() && self.outputfilter.inv() && self.lockfilter.inv() && 0
            <= self.nphase < TURN && 0 <= self.refstep < TURN && -0x8000_0000 <= self.gain
            <= 0x8000_0000
    }

    open spec fn step_spec(v: PllView<L::V, O::V, K::V>, a: Complex) -> PllView<
        L::V,
        O::V,
        K::V,
    > {
        pll_step_spec::<L, O, K>(v, a)
    }

    open spec fn out_spec(v: PllView<L::V, O::V, K::V>, a: Complex) -> Option<i64> {
        pll_out_spec::<L, O, K>(v, a)
    }

    fn apply(&mut self, value: Complex) -> (r: Option<i64>) {
        let c = value.mul_c(self.value.conj());
        let lf = self.loopfilter.apply(c);
        let ang: i64 = arg_fx(lf);
        let pd: i64 = fxmul(self.gain, ang);
        let s: i64 = self.nphase + self.refstep + pd;
        self.nphase = turn_mod(s);
        self.value = unit_phasor(self.nphase);
        let locked: i64 = self.lockfilter.apply(c.re);
        let hz: i64 = pll_hz(pd, self.rate);
        let output: i64 = self.outputfilter.apply(hz);
        if locked > LOCK_THRESHOLD {
            Some(output)
        } else {
            None
        }
    }
}

/// Instantiating a PLL design at a rate: the reference frequency
/// becomes a per-sample phase step, the sub-filters are designed at the
/// same rate, and the phase state starts at zero.
impl<LD, OD, KD> FilterDesign<Complex> for PllDesign<LD, OD, KD> where
    LD: FilterDesign<Complex, Output = Complex>,
    OD: FilterDesign<i64, Output = i64>,
    KD: FilterDesign<i64, Output = i64>,
{
    type Output = Option<i64>;

    type Filter = Pll<LD::Filter, OD::Filter, KD::Filter>;

    open spec fn design_req(&self, rate: u32) -> bool {
        rate > 0 && self.reference < rate && -0x8000_0000 <= self.gain <= 0x8000_0000
            && self.loopfilter.design_req(rate) && self.outputfilter.design_req(rate)
            && self.lockfilter.design_req(rate)
    }

    open spec fn design_view(&self, rate: u32) -> PllView<
        <LD::Filter as View>::V,
        <OD::Filter as View>::V,
        <KD::Filter as View>::V,
    > {
        PllView {
            rate,
            refstep: (self.reference * TURN / (rate as int)) as i64,
            gain: self.gain,
            loopv: self.loopfilter.design_view(rate),
            outputv: self.outputfilter.design_view(rate),
            lockv: self.lockfilter.design_view(rate),
            nphase: 0,
            value: Complex { re: 0, im: 0 },
        }
    }

    fn design(self, rate: u32) -> (f: Pll<LD::Filter, OD::Filter, KD::Filter>) {
        proof {
            assert(0 <= (self.reference as int) * (TURN as int) < (rate as int) * (TURN as int))
                by (nonlinear_arith)
                requires
                    self.reference < rate,
                    TURN > 0,
            ;
            assert(((self.reference as int) * (TURN as int)) / (rate as int) < TURN as int)
                by (nonlinear_arith)
                requires
                    rate > 0,
                    TURN > 0,
                    0 <= (self.reference as int) * (TURN as int) < (rate as int) * (TURN
                        as int),
            ;
        }
        let refstep128: u128 = (self.reference as u128 * TURN as u128) / (rate as u128);
        let refstep: i64 = refstep128 as i64;
        Pll {
            rate,
            refstep,
            gain: self.gain,
            loopfilter: self.loopfilter.design(rate),
            outputfilter: self.outputfilter.design(rate),
            lockfilter: self.lockfilter.design(rate),
            nphase: 0,
            value: Complex { re: 0, im: 0 },
        }
    }
}

/// The steady state of a locked loop: when the input equals the
/// reference phasor exactly, the phase error is purely real and
/// positive, its argument is zero, the phase correction vanishes, and
/// the accumulator advances by exactly the reference step. This is the
/// equilibrium that lock convergence settles into; how fast a loop
/// reaches it is set by the loop-filter bandwidth.
pub proof fn lemma_pll_locked_steady<O, K>(
    v: PllView<Identity, O::V, K::V>,
    a: Complex,
) where O: Filter<i64, Output = i64>, K: Filter<i64, Output = i64>
    requires
        a == v.value,
        v.value.re != 0 || v.value.im != 0,
        -AMPLITUDE <= v.value.re <= AMPLITUDE,
        -AMPLITUDE <= v.value.im <= AMPLITUDE,
    ensures
        pll_error(v, a).im == 0,
        pll_error(v, a).re > 0,
        pll_phasedif::<Identity, O, K>(v, a) == 0,
        pll_step_spec::<Identity, O, K>(v, a).nphase == (v.nphase + v.refstep) % (TURN as int),
        pll_step_spec::<Identity, O, K>(v, a).value == unit_phasor_spec(
            (v.nphase + v.refstep) % (TURN as int),
        ),
{
    let re = v.value.re;
    let im = v.value.im;
    let nim = (0i64).wrapping_sub(im);
    assert(nim == -(im as int)) by {
        lemma_crop_in_range(-(im as int));
        assert((0i64).wrapping_sub(im) == vstd::wrapping::i64_specs::signed_crop(0 - im));
    }
    lemma_wmul_is_crop(re, re);
    lemma_wmul_is_crop(im, nim);
    lemma_wmul_is_crop(re, nim);
    lemma_wmul_is_crop(im, re);
    assert(-0x1000_0000 <= re * re <= 0x1000_0000 && -0x1000_0000 <= im * nim <= 0x1000_0000
        && -0x1000_0000 <= re * nim <= 0x1000_0000 && -0x1000_0000 <= im * re <= 0x1000_0000)
        by (nonlinear_arith)
        requires
            -AMPLITUDE <= re <= AMPLITUDE,
            -AMPLITUDE <= im <= AMPLITUDE,
            -AMPLITUDE <= nim <= AMPLITUDE,
    ;
    lemma_crop_in_range(re * re);
    lemma_crop_in_range(im * nim);
    lemma_crop_in_range(re * nim);
    lemma_crop_in_range(im * re);
    let c = pll_error(v, a);
    assert(c.re == re.wrapping_mul(re).wrapping_sub(im.wrapping_mul(nim)));
    assert(c.re == vstd::wrapping::i64_specs::signed_crop(re * re - im * nim)) by {
        lemma_crop_in_range(re * re - im * nim);
        assert(re.wrapping_mul(re).wrapping_sub(im.wrapping_mul(nim))
            == vstd::wrapping::i64_specs::signed_crop(
            re.wrapping_mul(re) - im.wrapping_mul(nim),
        ));
    }
    assert(re * re - im * nim == re * re + im * im) by (nonlinear_arith)
        requires
            nim == -(im as int),
    ;
    assert(re * re + im * im > 0) by (nonlinear_arith)
        requires
            re != 0 || im != 0,
    ;
    lemma_crop_in_range(re * re + im * im);
    assert(c.im == vstd::wrapping::i64_specs::signed_crop(re * nim + im * re)) by {
        lemma_crop_in_range(re * nim + im * re);
        assert(re.wrapping_mul(nim).wrapping_add(im.wrapping_mul(re))
            == vstd::wrapping::i64_specs::signed_crop(
            re.wrapping_mul(nim) + im.wrapping_mul(re),
        ));
    }
    assert(re * nim + im * re == 0) by (nonlinear_arith)
        requires
            nim == -(im as int),
    ;
    lemma_crop_in_range(0);
    assert(arg_spec(c) == 0);
    assert(fxmul_spec(v.gain, 0) == 0) by {
        assert(v.gain * 0 == 0) by (nonlinear_arith);
        assert((0int) / (FX_ONE as int) == 0);
    }
}

/// Lock persistence: a loop whose phase accumulator and reference
/// phasor sit exactly on a tone of its own reference step stays there.
/// Fed the tone's current sample, the phase correction is zero, the
/// accumulator moves to the tone's next phase, and the new reference
/// phasor is the tone's next sample — so a locked loop driven by a tone
/// at its reference frequency remains locked, sample after sample.
pub proof fn lemma_pll_lock_persists<O, K>(
    v: PllView<Identity, O::V, K::V>,
    phase0: i64,
    step: i64,
    j: nat,
) where O: Filter<i64, Output = i64>, K: Filter<i64, Output = i64>
    requires
        0 <= phase0 < TURN,
        0 <= step < TURN,
        v.refstep == step,
        v.nphase == tone_phase(phase0, step, j),
        v.value == unit_phasor_spec(v.nphase as int),
    ensures
        ({
            let a = unit_phasor_spec(tone_phase(phase0, step, j));
            let v2 = pll_step_spec::<Identity, O, K>(v, a);
            &&& pll_phasedif::<Identity, O, K>(v, a) == 0
            &&& v2.nphase == tone_phase(phase0, step, (j + 1) as nat)
            &&& v2.value == unit_phasor_spec(v2.nphase as int)
            &&& v2.refstep == step
        }),
{
    let tt = TURN as int;
    vstd::arithmetic::div_mod::lemma_mod_bound(phase0 + j * (step as int), tt);
    lemma_unit_phasor_nonzero(v.nphase as int);
    lemma_unit_phasor_bounds(v.nphase as int);
    let a = unit_phasor_spec(tone_phase(phase0, step, j));
    lemma_pll_locked_steady::<O, K>(v, a);
    assert((j + 1) * (step as int) == j * (step as int) + step) by (nonlinear_arith);
    vstd::arithmetic::div_mod::lemma_small_mod(step as nat, tt as nat);
    vstd::arithmetic::div_mod::lemma_add_mod_noop(phase0 + j * (step as int), step as int, tt);
    vstd::arithmetic::div_mod::lemma_mod_twice(phase0 + j * (step as int), tt);
    assert((v.nphase + v.refstep) % tt == (phase0 + (j + 1) * (step as int)) % tt) by {
        assert(((phase0 + j * (step as int)) % tt + (step as int) % tt) % tt == (phase0 + j * (
        step as int) + step) % tt);
    }
}

} // verus!
