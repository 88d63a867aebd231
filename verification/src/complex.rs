//! Complex sample values in exact integer arithmetic.
//!
//! A sample is a pair of signed 64-bit integers. All operations wrap, so the
//! sample space is the ring of integers modulo 2^64 on each axis: every
//! operation is total and its result is pinned exactly by the contract.

use vstd::prelude::*;

verus! {

/// A complex sample: real and imaginary part, both wrapping 64-bit integers.
#[derive(Clone, Copy, Debug, PartialEq, Eq, Structural)]
pub struct Complex {
    pub re: i64,
    pub im: i64,
}

impl Complex {
    /// The additive identity.
    pub fn zero() -> (r: Complex)
        ensures
            r == (Complex { re: 0i64, im: 0i64 }),
    {
        Complex { re: 0, im: 0 }
    }

    /// The complex conjugate, with wrapping negation.
    pub open spec fn conj_spec(self) -> Complex {
        Complex { re: self.re, im: (0i64).wrapping_sub(self.im) }
    }

    /// Negates the imaginary part.
    pub fn conj(self) -> (r: Complex)
        ensures
            r == self.conj_spec(),
    {
        Complex { re: self.re, im: 0i64.wrapping_sub(self.im) }
    }

    /// The complex product, with wrapping integer arithmetic on each term.
    pub open spec fn mul_spec(self, o: Complex) -> Complex {
        Complex {
            re: self.re.wrapping_mul(o.re).wrapping_sub(self.im.wrapping_mul(o.im)),
            im: self.re.wrapping_mul(o.im).wrapping_add(self.im.wrapping_mul(o.re)),
        }
    }

    /// Complex multiplication.
    pub fn mul_c(self, o: Complex) -> (r: Complex)
        ensures
            r == self.mul_spec(o),
    {
        Complex {
            re: self.re.wrapping_mul(o.re).wrapping_sub(self.im.wrapping_mul(o.im)),
            im: self.re.wrapping_mul(o.im).wrapping_add(self.im.wrapping_mul(o.re)),
        }
    }
}

/// The amplitude of a unit phasor: the integer standing for 1.0 on each
/// complex axis.
pub const AMPLITUDE: i64 = 16384;

/// One full cycle of phase, in the fixed-point turn units used
/// throughout this crate: phases live in `[0, TURN)`.
pub const TURN: i64 = 0x1_0000_0000;

/// A quarter cycle.
pub const QUARTER: i64 = 0x4000_0000;

/// Half a cycle.
pub const HALF_TURN: i64 = 0x8000_0000;

/// The fixed-point scale of dimensionless factors such as loop gains:
/// this integer stands for 1.0.
pub const FX_ONE: i64 = 65536;

/// The magnitude of an integer.
pub open spec fn abs_spec(x: int) -> int {
    if x >= 0 {
        x
    } else {
        -x
    }
}

/// The triangle-wave approximation of `sin` on `[0, TURN)`: piecewise
/// linear, exact zeros at 0 and `HALF_TURN`, peaks `AMPLITUDE` at
/// `QUARTER` and `-AMPLITUDE` at three quarters.
pub open spec fn sin_tri_spec(t: int) -> int {
    let amp = AMPLITUDE as int;
    let q = QUARTER as int;
    let h = HALF_TURN as int;
    if t < q {
        amp * t / q
    } else if t < h {
        amp - amp * (t - q) / q
    } else if t < h + q {
        -(amp * (t - h) / q)
    } else {
        -amp + amp * (t - h - q) / q
    }
}

/// The matching cosine: the sine a quarter turn ahead.
pub open spec fn cos_tri_spec(t: int) -> int {
    sin_tri_spec((t + QUARTER as int) % (TURN as int))
}

/// The sine of a phase in turn units, on the triangle-wave circle.
pub fn sin_tri(t: i64) -> (r: i64)
    requires
        0 <= t < TURN,
    ensures
        r == sin_tri_spec(t as int),
        -AMPLITUDE <= r <= AMPLITUDE,
{
    if t < QUARTER {
        ((AMPLITUDE as u64 * t as u64) / QUARTER as u64) as i64
    } else if t < HALF_TURN {
        AMPLITUDE - ((AMPLITUDE as u64 * (t - QUARTER) as u64) / QUARTER as u64) as i64
    } else if t < HALF_TURN + QUARTER {
        -(((AMPLITUDE as u64 * (t - HALF_TURN) as u64) / QUARTER as u64) as i64)
    } else {
        -AMPLITUDE + ((AMPLITUDE as u64 * (t - HALF_TURN - QUARTER) as u64) / QUARTER
            as u64) as i64
    }
}

/// The unit phasor at a phase given in turn units: the point of the
/// triangle-wave circle with cosine real part and sine imaginary part.
pub open spec fn unit_phasor_spec(t: int) -> Complex {
    Complex { re: cos_tri_spec(t) as i64, im: sin_tri_spec(t) as i64 }
}

/// The unit phasor at phase `t`.
pub fn unit_phasor(t: i64) -> (r: Complex)
    requires
        0 <= t < TURN,
    ensures
        r == unit_phasor_spec(t as int),
        -AMPLITUDE <= r.re <= AMPLITUDE,
        -AMPLITUDE <= r.im <= AMPLITUDE,
{
    let tc: i64 = if t + QUARTER < TURN {
        t + QUARTER
    } else {
        t + QUARTER - TURN
    };
    proof {
        if t + QUARTER < TURN {
            vstd::arithmetic::div_mod::lemma_small_mod((t + QUARTER) as nat, TURN as nat);
        } else {
            vstd::arithmetic::div_mod::lemma_mod_sub_multiples_vanish(
                (t + QUARTER - TURN) as int,
                TURN as int,
            );
            vstd::arithmetic::div_mod::lemma_small_mod((t + QUARTER - TURN) as nat, TURN as nat);
        }
    }
    let re: i64 = sin_tri(tc);
    let im: i64 = sin_tri(t);
    Complex { re, im }
}

/// The diamond-angle argument of a complex sample, in turn units in
/// `[-HALF_TURN, HALF_TURN]`: within each quadrant the angle is
/// interpolated linearly between the axes by `|im| / (|re| + |im|)`,
/// which is exact on the axes and monotone in the true angle. The
/// argument of zero is zero.
pub open spec fn arg_spec(c: Complex) -> int {
    if c.re == 0 && c.im == 0 {
        0
    } else {
        let base = (QUARTER as int) * abs_spec(c.im as int) / (abs_spec(c.re as int) + abs_spec(
            c.im as int,
        ));
        if c.re >= 0 && c.im >= 0 {
            base
        } else if c.re < 0 && c.im >= 0 {
            HALF_TURN as int - base
        } else if c.re < 0 {
            base - HALF_TURN as int
        } else {
            -base
        }
    }
}

/// The diamond-angle argument of `c`, in turn units.
pub fn arg_fx(c: Complex) -> (r: i64)
    ensures
        r == arg_spec(c),
        -HALF_TURN <= r <= HALF_TURN,
{
    if c.re == 0 && c.im == 0 {
        return 0;
    }
    let ax: u128 = if c.re >= 0 {
        c.re as u128
    } else {
        (-(c.re as i128)) as u128
    };
    let ay: u128 = if c.im >= 0 {
        c.im as u128
    } else {
        (-(c.im as i128)) as u128
    };
    let base128: u128 = (QUARTER as u128 * ay) / (ax + ay);
    proof {
        assert(QUARTER as u128 * ay <= QUARTER as u128 * (ax + ay)) by (nonlinear_arith)
            requires
                ay <= ax + ay,
        ;
        assert((QUARTER as u128 * ay) / (ax + ay) <= (QUARTER as u128 * (ax + ay)) / (ax + ay))
            by (nonlinear_arith)
            requires
                ax + ay > 0,
                QUARTER as u128 * ay <= QUARTER as u128 * (ax + ay),
        ;
        assert((QUARTER as u128 * (ax + ay)) / (ax + ay) == QUARTER as u128) by (nonlinear_arith)
            requires
                ax + ay > 0,
        ;
    }
    let base: i64 = base128 as i64;
    if c.re >= 0 && c.im >= 0 {
        base
    } else if c.re < 0 && c.im >= 0 {
        HALF_TURN - base
    } else if c.re < 0 {
        base - HALF_TURN
    } else {
        -base
    }
}

/// The product of two fixed-point factors, scaled back by `FX_ONE`,
/// with the quotient rounded toward zero.
pub open spec fn fxmul_spec(a: i64, b: i64) -> int {
    if a * b >= 0 {
        (a * b) / (FX_ONE as int)
    } else {
        -((-(a * b)) / (FX_ONE as int))
    }
}

/// Multiplies two fixed-point factors whose magnitudes stay within one
/// sign bit of half the machine word, scaling the product back.
pub fn fxmul(a: i64, b: i64) -> (r: i64)
    requires
        -0x8000_0000 <= a <= 0x8000_0000,
        -0x8000_0000 <= b <= 0x8000_0000,
    ensures
        r == fxmul_spec(a, b),
        -0x4000_0000_0000 <= r <= 0x4000_0000_0000,
{
    proof {
        assert(-0x4000_0000_0000_0000 <= a * b <= 0x4000_0000_0000_0000) by (nonlinear_arith)
            requires
                -0x8000_0000 <= a <= 0x8000_0000,
                -0x8000_0000 <= b <= 0x8000_0000,
        ;
    }
    let p: i64 = a * b;
    if p >= 0 {
        let q: u64 = (p as u64) / (FX_ONE as u64);
        proof {
            assert((p as u64) / (FX_ONE as u64) <= p as u64 / 1) by (nonlinear_arith)
                requires
                    p >= 0,
            ;
        }
        q as i64
    } else {
        let m: i64 = -p;
        let q: u64 = (m as u64) / (FX_ONE as u64);
        proof {
            assert((m as u64) / (FX_ONE as u64) <= m as u64 / 1) by (nonlinear_arith)
                requires
                    m >= 0,
            ;
        }
        -(q as i64)
    }
}

/// The Euclidean remainder of a phase by one full turn: the fract step
/// that keeps a phase accumulator inside `[0, TURN)`.
pub fn turn_mod(s: i64) -> (r: i64)
    requires
        -0x4000_0000_0000_0000 <= s <= 0x4000_0000_0000_0000,
    ensures
        r == s as int % (TURN as int),
        0 <= r < TURN,
{
    if s >= 0 {
        let r: u64 = (s as u64) % (TURN as u64);
        r as i64
    } else {
        let m: u64 = ((-s) as u64) % (TURN as u64);
        proof {
            let t = TURN as int;
            vstd::arithmetic::div_mod::lemma_add_mod_noop(s as int, (-s) as int % t, t);
            vstd::arithmetic::div_mod::lemma_mod_multiples_vanish((((-s) as int) / t) as int, 0, t);
            vstd::arithmetic::div_mod::lemma_fundamental_div_mod((-s) as int, t);
            if m == 0 {
                vstd::arithmetic::div_mod::lemma_mod_multiples_vanish(-((((-s) as int) / t) as int), 0, t);
            } else {
                vstd::arithmetic::div_mod::lemma_mod_multiples_vanish(-((((-s) as int) / t) as int) - 1, (t - m) as int, t);
                vstd::arithmetic::div_mod::lemma_small_mod((t - m) as nat, t as nat);
            }
        }
        if m == 0 {
            0
        } else {
            TURN - m as i64
        }
    }
}

/// A point of the triangle-wave circle is never the origin: wherever
/// the sine component vanishes, the cosine component sits at full
/// amplitude.
pub proof fn lemma_unit_phasor_nonzero(t: int)
    requires
        0 <= t < TURN,
    ensures
        unit_phasor_spec(t).re != 0 || unit_phasor_spec(t).im != 0,
{
    let amp = AMPLITUDE as int;
    let q = QUARTER as int;
    let h = HALF_TURN as int;
    let tt = TURN as int;
    let tc = (t + q) % tt;
    if t + q < tt {
        vstd::arithmetic::div_mod::lemma_small_mod((t + q) as nat, tt as nat);
    } else {
        vstd::arithmetic::div_mod::lemma_mod_sub_multiples_vanish((t + q - tt) as int, tt);
        vstd::arithmetic::div_mod::lemma_small_mod((t + q - tt) as nat, tt as nat);
    }
    if sin_tri_spec(t) == 0 {
        if t < q {
            // the sine rounds to zero only just above zero phase, where
            // the cosine branch still reads full amplitude
            assert(amp * t / q == 0);
            assert(tc == t + q && q <= tc < h);
            assert(sin_tri_spec(tc) == amp - amp * (tc - q) / q);
            assert(tc - q == t);
        } else if t < h {
            assert(amp * (t - q) / q < amp) by (nonlinear_arith)
                requires
                    amp == 16384,
                    q == 0x4000_0000,
                    0 <= t - q < q,
            ;
            assert(false);
        } else if t < h + q {
            assert(amp * (t - h) / q == 0);
            assert(tc == t + q && h + q <= tc < tt);
            assert(sin_tri_spec(tc) == -amp + amp * (tc - h - q) / q);
            assert(tc - h - q == t - h);
        } else {
            assert(amp * (t - h - q) / q < amp) by (nonlinear_arith)
                requires
                    amp == 16384,
                    q == 0x4000_0000,
                    0 <= t - h - q < q,
            ;
            assert(false);
        }
    }
}

/// The triangle sine stays within the phasor amplitude.
pub proof fn lemma_sin_tri_bounds(t: int)
    requires
        0 <= t < TURN,
    ensures
        -AMPLITUDE <= sin_tri_spec(t) <= AMPLITUDE,
{
    let amp = AMPLITUDE as int;
    let q = QUARTER as int;
    let h = HALF_TURN as int;
    if t < q {
        assert(0 <= amp * t / q <= amp) by (nonlinear_arith)
            requires
                amp == 16384,
                q == 0x4000_0000,
                0 <= t < q,
        ;
    } else if t < h {
        assert(0 <= amp * (t - q) / q <= amp) by (nonlinear_arith)
            requires
                amp == 16384,
                q == 0x4000_0000,
                0 <= t - q < q,
        ;
    } else if t < h + q {
        assert(0 <= amp * (t - h) / q <= amp) by (nonlinear_arith)
            requires
                amp == 16384,
                q == 0x4000_0000,
                0 <= t - h < q,
        ;
    } else {
        assert(0 <= amp * (t - h - q) / q <= amp) by (nonlinear_arith)
            requires
                amp == 16384,
                q == 0x4000_0000,
                0 <= t - h - q < q,
        ;
    }
}

/// Both components of a unit phasor stay within the amplitude.
pub proof fn lemma_unit_phasor_bounds(t: int)
    requires
        0 <= t < TURN,
    ensures
        -AMPLITUDE <= unit_phasor_spec(t).re <= AMPLITUDE,
        -AMPLITUDE <= unit_phasor_spec(t).im <= AMPLITUDE,
{
    lemma_sin_tri_bounds(t);
    vstd::arithmetic::div_mod::lemma_mod_bound(t + QUARTER as int, TURN as int);
    lemma_sin_tri_bounds((t + QUARTER as int) % (TURN as int));
}

} // verus!
