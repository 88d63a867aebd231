//! Signal sources: materialized sequences, constants, and the unit
//! impulse.

use vstd::prelude::*;
use crate::signal::Signal;
use crate::filter::convolve::Convolve;
use crate::complex::{Complex, unit_phasor, unit_phasor_spec, TURN};

verus! {

/// A finite signal over a materialized sample sequence.
#[derive(Clone, Debug)]
pub struct FromIter<A> {
    /// The samples still to be emitted come from `data[pos..]`.
    pub data: Vec<A>,
    /// The cursor into `data`.
    pub pos: usize,
    /// The declared sample rate.
    pub rate: u32,
}

impl<A> FromIter<A> {
    /// A signal that emits the elements of `data` in order, then ends.
    pub fn new(rate: u32, data: Vec<A>) -> (r: FromIter<A>)
        ensures
            r == (FromIter { data, pos: 0usize, rate }),
    {
        FromIter { data, pos: 0, rate }
    }
}

impl<A> Signal for FromIter<A> where A: Copy {
    type Sample = A;

    open spec fn rate_spec(&self) -> u32 {
        self.rate
    }

    open spec fn wf(&self) -> bool {
        self.pos <= self.data@.len()
    }

    open spec fn exact(&self) -> bool {
        true
    }

    open spec fn out(&self, i: nat) -> Option<A> {
        if self.pos + i < self.data@.len() {
            Some(self.data@[self.pos + i])
        } else {
            None
        }
    }

    open spec fn done(&self) -> bool {
        self.pos >= self.data@.len()
    }

    proof fn lemma_stream_wf(&self) {
    }

    fn rate(&self) -> u32 {
        self.rate
    }

    fn next(&mut self) -> (r: Option<A>) {
        if self.pos < self.data.len() {
            let v: A = self.data[self.pos];
            self.pos = self.pos + 1;
            Some(v)
        } else {
            None
        }
    }
}

/// A signal over a materialized sample sequence.
pub fn from_iter<A>(rate: u32, data: Vec<A>) -> (r: FromIter<A>)
    ensures
        r == (FromIter { data, pos: 0usize, rate }),
{
    FromIter::new(rate, data)
}

/// The signal that repeats one value forever.
#[derive(Clone, Copy, Debug)]
pub struct Constant<A> {
    /// The declared sample rate.
    pub rate: u32,
    /// The value every sample carries.
    pub value: A,
}

impl<A> Constant<A> {
    /// An unbounded signal whose every sample is `value`.
    pub fn new(rate: u32, value: A) -> (r: Constant<A>)
        ensures
            r == (Constant { rate, value }),
    {
        Constant { rate, value }
    }
}

impl<A> Signal for Constant<A> where A: Copy {
    type Sample = A;

    open spec fn rate_spec(&self) -> u32 {
        self.rate
    }

    open spec fn wf(&self) -> bool {
        true
    }

    open spec fn exact(&self) -> bool {
        true
    }

    open spec fn out(&self, i: nat) -> Option<A> {
        Some(self.value)
    }

    open spec fn done(&self) -> bool {
        false
    }

    proof fn lemma_stream_wf(&self) {
    }

    fn rate(&self) -> u32 {
        self.rate
    }

    fn next(&mut self) -> (r: Option<A>) {
        Some(self.value)
    }
}

/// An unbounded signal whose every sample is `value`.
pub fn constant<A: Copy>(rate: u32, value: A) -> (r: Constant<A>)
    ensures
        r == (Constant { rate, value }),
{
    Constant::new(rate, value)
}

/// The unbounded signal of multiplicative identities.
pub fn one<A>(rate: u32) -> (r: Constant<A>) where A: Convolve<A>
    ensures
        r == (Constant { rate, value: A::one_spec() }),
{
    Constant::new(rate, A::one())
}

/// The unbounded signal of additive identities.
pub fn zero<A>(rate: u32) -> (r: Constant<A>) where A: Convolve<A>
    ensures
        r == (Constant { rate, value: A::zero_spec() }),
{
    Constant::new(rate, A::zero())
}

/// The unit impulse: a single one, followed by zeros forever.
#[derive(Clone, Copy, Debug)]
pub struct Impulse<A> {
    /// The declared sample rate.
    pub rate: u32,
    /// Whether the one is still to come.
    pub first: bool,
    /// The zero sample emitted after the impulse.
    pub zero_v: A,
    /// The one sample emitted first.
    pub one_v: A,
}

impl<A> Impulse<A> where A: Convolve<A> {
    /// A fresh impulse signal.
    pub fn new(rate: u32) -> (r: Impulse<A>)
        ensures
            r == (Impulse { rate, first: true, zero_v: A::zero_spec(), one_v: A::one_spec() }),
    {
        Impulse { rate, first: true, zero_v: A::zero(), one_v: A::one() }
    }
}

impl<A> Signal for Impulse<A> where A: Convolve<A> {
    type Sample = A;

    open spec fn rate_spec(&self) -> u32 {
        self.rate
    }

    open spec fn wf(&self) -> bool {
        self.zero_v == A::zero_spec() && self.one_v == A::one_spec()
    }

    open spec fn exact(&self) -> bool {
        true
    }

    open spec fn out(&self, i: nat) -> Option<A> {
        if self.first && i == 0 {
            Some(A::one_spec())
        } else {
            Some(A::zero_spec())
        }
    }

    open spec fn done(&self) -> bool {
        false
    }

    proof fn lemma_stream_wf(&self) {
    }

    fn rate(&self) -> u32 {
        self.rate
    }

    fn next(&mut self) -> (r: Option<A>) {
        let first: bool = self.first;
        self.first = false;
        if first {
            Some(self.one_v)
        } else {
            Some(self.zero_v)
        }
    }
}

/// A fresh unit impulse signal.
pub fn impulse<A>(rate: u32) -> (r: Impulse<A>) where A: Convolve<A>
    ensures
        r == (Impulse { rate, first: true, zero_v: A::zero_spec(), one_v: A::one_spec() }),
{
    Impulse::new(rate)
}

/// The phase of the `j`-th tone sample: the starting phase advanced by
/// `j` steps, wrapped into one turn.
pub open spec fn tone_phase(phase0: i64, step: i64, j: nat) -> int {
    (phase0 + j * step) % (TURN as int)
}

/// A pure complex tone: unit phasors advancing by a fixed phase step
/// per sample. It exhausts only when its sample counter would overflow.
#[derive(Clone, Copy, Debug)]
pub struct Freq {
    /// The declared sample rate.
    pub rate: u32,
    /// The starting phase, in turn units.
    pub phase0: i64,
    /// The per-sample phase advance, in turn units.
    pub step: i64,
    /// How many samples were already emitted.
    pub n: u64,
}

impl Freq {
    /// A tone of `freq` Hz at `rate` samples per second, starting at
    /// `phase` turn units. The phase advances by `freq * TURN / rate`
    /// turn units per sample, rounded down.
    pub fn new(rate: u32, freq: u32, phase: i64) -> (r: Freq)
        requires
            rate > 0,
            freq < rate,
            0 <= phase < TURN,
        ensures
            r.rate == rate,
            r.phase0 == phase,
            r.step == (freq * TURN / (rate as int)) as i64,
            0 <= r.step < TURN,
            r.n == 0,
    {
        proof {
            assert(0 <= (freq as int) * (TURN as int) < (rate as int) * (TURN as int))
                by (nonlinear_arith)
                requires
                    freq < rate,
                    TURN > 0,
            ;
            assert(((freq as int) * (TURN as int)) / (rate as int) < TURN as int)
                by (nonlinear_arith)
                requires
                    rate > 0,
                    TURN > 0,
                    0 <= (freq as int) * (TURN as int) < (rate as int) * (TURN as int),
            ;
        }
        let step128: u128 = (freq as u128 * TURN as u128) / (rate as u128);
        Freq { rate, phase0: phase, step: step128 as i64, n: 0 }
    }
}

impl Signal for Freq {
    type Sample = Complex;

    open spec fn rate_spec(&self) -> u32 {
        self.rate
    }

    open spec fn wf(&self) -> bool {
        0 <= self.phase0 < TURN && 0 <= self.step < TURN
    }

    open spec fn exact(&self) -> bool {
        true
    }

    open spec fn out(&self, i: nat) -> Option<Complex> {
        if self.n + 1 + i < u64::MAX {
            Some(unit_phasor_spec(tone_phase(self.phase0, self.step, (self.n + 1 + i) as nat)))
        } else {
            None
        }
    }

    open spec fn done(&self) -> bool {
        self.n + 1 >= u64::MAX
    }

    proof fn lemma_stream_wf(&self) {
    }

    fn rate(&self) -> u32 {
        self.rate
    }

    fn next(&mut self) -> (r: Option<Complex>) {
        if self.n < u64::MAX - 1 {
            self.n = self.n + 1;
            proof {
                let t = TURN as int;
                let raw = self.phase0 as int + (self.n as int) * (self.step as int);
                assert(0 <= (self.n as int) * (self.step as int) <= 0xffff_ffff_ffff_ffff
                    * 0x1_0000_0000) by (nonlinear_arith)
                    requires
                        0 <= self.n <= 0xffff_ffff_ffff_ffff,
                        0 <= self.step < 0x1_0000_0000,
                ;
                vstd::arithmetic::div_mod::lemma_mod_bound(raw, t);
            }
            let t128: u128 = (self.phase0 as u128 + self.n as u128 * self.step as u128) % (TURN
                as u128);
            let ph: i64 = t128 as i64;
            Some(unit_phasor(ph))
        } else {
            None
        }
    }
}

/// A pure complex tone of `freq` Hz at `rate` samples per second.
pub fn freq(rate: u32, freq_hz: u32, phase: i64) -> (r: Freq)
    requires
        rate > 0,
        freq_hz < rate,
        0 <= phase < TURN,
    ensures
        r.rate == rate,
        r.phase0 == phase,
        r.step == (freq_hz * TURN / (rate as int)) as i64,
        0 <= r.step < TURN,
        r.n == 0,
{
    Freq::new(rate, freq_hz, phase)
}

/// The magnitude bound on sweep frequencies, in `FX_ONE`-scaled Hz: a
/// sweep clamps its frequency here instead of running away.
pub const SWEEP_FREQ_LIMIT: i64 = 0x100_0000_0000;

/// Clamps a swept frequency into its working band.
pub open spec fn sweep_clamp(v: int) -> i64 {
    if v > SWEEP_FREQ_LIMIT {
        SWEEP_FREQ_LIMIT
    } else if v < -SWEEP_FREQ_LIMIT {
        (-SWEEP_FREQ_LIMIT) as i64
    } else {
        v as i64
    }
}

/// The per-sample phase advance, in turn units, of a frequency given in
/// `FX_ONE`-scaled Hz, rounded toward zero.
pub open spec fn sweep_phase_step(freq_fx: i64, rate: u32) -> int {
    let num = freq_fx * (crate::complex::TURN as int);
    let den = (crate::complex::FX_ONE as int) * rate;
    if num >= 0 {
        num / den
    } else {
        -((-num) / den)
    }
}

/// A linear frequency sweep: a tone whose frequency moves by a fixed
/// amount per sample between a warm-up period and a sweep end, with an
/// optional total length. Frequencies are held in `FX_ONE`-scaled Hz.
#[derive(Clone, Copy, Debug)]
pub struct FreqSweep {
    /// The declared sample rate; at least one.
    pub rate: u32,
    /// The current frequency, in `FX_ONE`-scaled Hz.
    pub freq_fx: i64,
    /// The frequency increment per sample, in `FX_ONE`-scaled Hz.
    pub dfdt_fx: i64,
    /// The phase accumulator, in `[0, TURN)`.
    pub nphase: i64,
    /// Samples left before the frequency starts moving.
    pub fstart: u64,
    /// Samples left until the frequency stops moving.
    pub fend: u64,
    /// Samples left in the whole signal, or `None` for unbounded.
    pub length: Option<u64>,
}

/// The sweep state after one sample: the frequency moves by its
/// increment only inside the sweep window, the phase advances by the
/// new frequency's step, and the counters tick down.
pub open spec fn sweep_step_spec(v: FreqSweep) -> FreqSweep {
    let d: i64 = if v.fstart > 0 || v.fend == 0 {
        0
    } else {
        v.dfdt_fx
    };
    let freq2 = sweep_clamp(v.freq_fx + d);
    let np = (v.nphase + sweep_phase_step(freq2, v.rate)) % (crate::complex::TURN as int);
    FreqSweep {
        rate: v.rate,
        freq_fx: freq2,
        dfdt_fx: v.dfdt_fx,
        nphase: np as i64,
        fstart: if v.fstart > 0 {
            (v.fstart - 1) as u64
        } else {
            0
        },
        fend: if v.fend > 0 {
            (v.fend - 1) as u64
        } else {
            0
        },
        length: match v.length {
            Some(l) => Some((l - 1) as u64),
            None => None,
        },
    }
}

/// Computes the per-sample phase step of a bounded sweep frequency.
fn sweep_phase_step_exec(freq_fx: i64, rate: u32) -> (r: i64)
    requires
        rate >= 1,
        -SWEEP_FREQ_LIMIT <= freq_fx <= SWEEP_FREQ_LIMIT,
    ensures
        r == sweep_phase_step(freq_fx, rate),
        -0x100_0000_0000_0000 <= r <= 0x100_0000_0000_0000,
{
    let t = crate::complex::TURN;
    let fx = crate::complex::FX_ONE;
    proof {
        let m = if freq_fx >= 0 {
            freq_fx as int
        } else {
            -(freq_fx as int)
        };
        assert(0 <= m * (t as int) <= SWEEP_FREQ_LIMIT * (t as int)) by (nonlinear_arith)
            requires
                0 <= m <= SWEEP_FREQ_LIMIT,
                t == crate::complex::TURN,
        ;
        assert((fx as int) * 1 <= (fx as int) * (rate as int)) by (nonlinear_arith)
            requires
                rate >= 1,
                fx == crate::complex::FX_ONE,
        ;
        vstd::arithmetic::div_mod::lemma_div_is_ordered_by_denominator(
            m * (t as int),
            fx as int,
            (fx as int) * (rate as int),
        );
        vstd::arithmetic::div_mod::lemma_div_is_ordered(
            m * (t as int),
            SWEEP_FREQ_LIMIT * (t as int),
            fx as int,
        );
        assert(SWEEP_FREQ_LIMIT * (t as int) / (fx as int) == 0x100_0000_0000_0000)
            by (nonlinear_arith)
            requires
                t == crate::complex::TURN,
                fx == crate::complex::FX_ONE,
        ;
        vstd::arithmetic::div_mod::lemma_div_pos_is_pos(m * (t as int), (fx as int) * (rate
            as int));
    }
    if freq_fx >= 0 {
        ((freq_fx as u128 * t as u128) / (fx as u128 * rate as u128)) as i64
    } else {
        let m: i64 = -freq_fx;
        -(((m as u128 * t as u128) / (fx as u128 * rate as u128)) as i64)
    }
}

impl FreqSweep {
    /// A sweep from its raw parameters; the sweep window is given in
    /// samples and the starting phase in turn units.
    pub fn new(
        rate: u32,
        freq_fx: i64,
        dfdt_fx: i64,
        phase: i64,
        fstart: u64,
        fend: u64,
        length: Option<u64>,
    ) -> (r: FreqSweep)
        requires
            rate > 0,
            -SWEEP_FREQ_LIMIT <= freq_fx <= SWEEP_FREQ_LIMIT,
            -SWEEP_FREQ_LIMIT <= dfdt_fx <= SWEEP_FREQ_LIMIT,
            0 <= phase < crate::complex::TURN,
        ensures
            r == (FreqSweep { rate, freq_fx, dfdt_fx, nphase: phase, fstart, fend, length }),
            r.wf(),
    {
        FreqSweep { rate, freq_fx, dfdt_fx, nphase: phase, fstart, fend, length }
    }
}

impl Signal for FreqSweep {
    type Sample = (i64, Complex);

    open spec fn rate_spec(&self) -> u32 {
        self.rate
    }

    open spec fn wf(&self) -> bool {
        self.rate >= 1 && 0 <= self.nphase < crate::complex::TURN && -SWEEP_FREQ_LIMIT
            <= self.freq_fx <= SWEEP_FREQ_LIMIT && -SWEEP_FREQ_LIMIT <= self.dfdt_fx
            <= SWEEP_FREQ_LIMIT
    }

    /// The stream is pinned call by call through the impl's own
    /// contract on `next` rather than through a closed-form model.
    open spec fn exact(&self) -> bool {
        false
    }

    open spec fn out(&self, i: nat) -> Option<(i64, Complex)> {
        None
    }

    open spec fn done(&self) -> bool {
        self.length == Some(0u64)
    }

    proof fn lemma_stream_wf(&self) {
    }

    fn rate(&self) -> u32 {
        self.rate
    }

    fn next(&mut self) -> (r: Option<(i64, Complex)>)
        ensures
            old(self).done() ==> *final(self) == *old(self),
            !old(self).done() ==> *final(self) == sweep_step_spec(*old(self)) && r == Some(
                (
                    sweep_step_spec(*old(self)).freq_fx,
                    unit_phasor_spec(sweep_step_spec(*old(self)).nphase as int),
                ),
            ),
    {
        match self.length {
            Some(l) => {
                if l == 0 {
                    return None;
                }
                self.length = Some(l - 1);
            },
            None => {},
        }

        let mut d: i64 = self.dfdt_fx;
        if self.fstart > 0 {
            self.fstart = self.fstart - 1;
            d = 0;
        }
        if self.fend > 0 {
            self.fend = self.fend - 1;
        } else {
            d = 0;
        }

        let sum: i64 = self.freq_fx + d;
        self.freq_fx = if sum > SWEEP_FREQ_LIMIT {
            SWEEP_FREQ_LIMIT
        } else if sum < -SWEEP_FREQ_LIMIT {
            -SWEEP_FREQ_LIMIT
        } else {
            sum
        };

        let step: i64 = sweep_phase_step_exec(self.freq_fx, self.rate);
        self.nphase = crate::complex::turn_mod(self.nphase + step);
        Some((self.freq_fx, unit_phasor(self.nphase)))
    }
}

} // verus!
