//! The convolve-accumulate operation shared by every sample type.
//!
//! A sample type has a zero and a one identity and can accumulate the
//! product of a sample with a coefficient. Filters are written against this
//! one operation, so a single filter implementation serves real samples,
//! complex samples, and scalar-weighted complex samples alike.
//!
//! All integer instances wrap on overflow, making every operation total:
//! the sample space is the ring of integers modulo 2^64.

use vstd::prelude::*;
use crate::complex::Complex;

verus! {

/// A sample value that supports `self += a * c` against coefficients of
/// type `C`, together with additive and multiplicative identities.
pub trait Convolve<C>: Sized + Copy {
    /// The additive identity, as a mathematical value.
    spec fn zero_spec() -> Self;

    /// The multiplicative identity, as a mathematical value.
    spec fn one_spec() -> Self;

    /// The value of `self` after accumulating `a * c`.
    spec fn acc_spec(self, a: Self, c: C) -> Self;

    /// The additive identity.
    fn zero() -> (r: Self)
        ensures
            r == Self::zero_spec(),
    ;

    /// The multiplicative identity.
    fn one() -> (r: Self)
        ensures
            r == Self::one_spec(),
    ;

    /// Adds the product `a * c` into `self`.
    fn accumulate(&mut self, a: &Self, c: &C)
        ensures
            *final(self) == old(self).acc_spec(*a, *c),
    ;
}

impl Convolve<i64> for i64 {
    open spec fn zero_spec() -> i64 {
        0
    }

    open spec fn one_spec() -> i64 {
        1
    }

    open spec fn acc_spec(self, a: i64, c: i64) -> i64 {
        self.wrapping_add(a.wrapping_mul(c))
    }

    fn zero() -> i64 {
        0
    }

    fn one() -> i64 {
        1
    }

    fn accumulate(&mut self, a: &i64, c: &i64) {
        *self = self.wrapping_add(a.wrapping_mul(*c));
    }
}

impl Convolve<i64> for Complex {
    open spec fn zero_spec() -> Complex {
        Complex { re: 0, im: 0 }
    }

    open spec fn one_spec() -> Complex {
        Complex { re: 1, im: 0 }
    }

    open spec fn acc_spec(self, a: Complex, c: i64) -> Complex {
        Complex {
            re: self.re.wrapping_add(a.re.wrapping_mul(c)),
            im: self.im.wrapping_add(a.im.wrapping_mul(c)),
        }
    }

    fn zero() -> Complex {
        Complex { re: 0, im: 0 }
    }

    fn one() -> Complex {
        Complex { re: 1, im: 0 }
    }

    fn accumulate(&mut self, a: &Complex, c: &i64) {
        self.re = self.re.wrapping_add(a.re.wrapping_mul(*c));
        self.im = self.im.wrapping_add(a.im.wrapping_mul(*c));
    }
}

impl Convolve<Complex> for Complex {
    open spec fn zero_spec() -> Complex {
        Complex { re: 0, im: 0 }
    }

    open spec fn one_spec() -> Complex {
        Complex { re: 1, im: 0 }
    }

    open spec fn acc_spec(self, a: Complex, c: Complex) -> Complex {
        Complex {
            re: self.re.wrapping_add(a.mul_spec(c).re),
            im: self.im.wrapping_add(a.mul_spec(c).im),
        }
    }

    fn zero() -> Complex {
        Complex { re: 0, im: 0 }
    }

    fn one() -> Complex {
        Complex { re: 1, im: 0 }
    }

    fn accumulate(&mut self, a: &Complex, c: &Complex) {
        let p = a.mul_c(*c);
        self.re = self.re.wrapping_add(p.re);
        self.im = self.im.wrapping_add(p.im);
    }
}

/// The modulus of 64-bit wrapping arithmetic.
pub open spec fn wrap_modulus() -> int {
    0x1_0000_0000_0000_0000
}

/// Wrapping addition is reduction of the exact sum into the signed range.
pub proof fn lemma_wadd_is_crop(x: i64, y: i64)
    ensures
        x.wrapping_add(y) == vstd::wrapping::i64_specs::signed_crop(x + y),
{
    let s = x + y;
    let r = wrap_modulus();
    if s >= 0 {
        vstd::arithmetic::div_mod::lemma_small_mod(s as nat, r as nat);
    } else {
        vstd::arithmetic::div_mod::lemma_mod_multiples_vanish(1, s, r);
        vstd::arithmetic::div_mod::lemma_small_mod((s + r) as nat, r as nat);
    }
}

/// Wrapping multiplication is reduction of the exact product.
pub proof fn lemma_wmul_is_crop(x: i64, y: i64)
    ensures
        x.wrapping_mul(y) == vstd::wrapping::i64_specs::signed_crop(x * y),
{
}

/// Reduction absorbs an already-reduced addend.
pub proof fn lemma_crop_add_left(m: int, k: int)
    ensures
        vstd::wrapping::i64_specs::signed_crop(
            vstd::wrapping::i64_specs::signed_crop(m) + k,
        ) == vstd::wrapping::i64_specs::signed_crop(m + k),
{
    let r = wrap_modulus();
    let c = vstd::wrapping::i64_specs::signed_crop(m) as int;
    assert(c % r == m % r) by {
        vstd::arithmetic::div_mod::lemma_mod_bound(m, r);
        vstd::arithmetic::div_mod::lemma_mod_sub_multiples_vanish(m % r, r);
        vstd::arithmetic::div_mod::lemma_small_mod((m % r) as nat, r as nat);
    }
    vstd::arithmetic::div_mod::lemma_add_mod_noop(c, k, r);
    vstd::arithmetic::div_mod::lemma_add_mod_noop(m, k, r);
}

/// Reduction absorbs an already-reduced factor.
pub proof fn lemma_crop_mul_left(m: int, k: int)
    ensures
        vstd::wrapping::i64_specs::signed_crop(
            vstd::wrapping::i64_specs::signed_crop(m) * k,
        ) == vstd::wrapping::i64_specs::signed_crop(m * k),
{
    let r = wrap_modulus();
    let c = vstd::wrapping::i64_specs::signed_crop(m) as int;
    assert(c % r == m % r) by {
        vstd::arithmetic::div_mod::lemma_mod_bound(m, r);
        vstd::arithmetic::div_mod::lemma_mod_sub_multiples_vanish(m % r, r);
        vstd::arithmetic::div_mod::lemma_small_mod((m % r) as nat, r as nat);
    }
    vstd::arithmetic::div_mod::lemma_mul_mod_noop_general(c, k, r);
    vstd::arithmetic::div_mod::lemma_mul_mod_noop_general(m, k, r);
}

/// The additive and multiplicative identities of wrapping arithmetic.
pub proof fn lemma_wrap_identities()
    ensures
        forall|x: i64| #[trigger] x.wrapping_add(0) == x,
        forall|x: i64| #[trigger] (0i64).wrapping_add(x) == x,
        forall|x: i64| #[trigger] x.wrapping_mul(0) == 0,
        forall|x: i64| #[trigger] (0i64).wrapping_mul(x) == 0,
        forall|x: i64| #[trigger] (1i64).wrapping_mul(x) == x,
        forall|x: i64| #[trigger] x.wrapping_mul(1) == x,
{
    assert forall|x: i64| #[trigger] x.wrapping_mul(0) == 0 && #[trigger] (0i64).wrapping_mul(x)
        == 0 && #[trigger] (1i64).wrapping_mul(x) == x && #[trigger] x.wrapping_mul(1) == x by {
        let r = wrap_modulus();
        assert((x as int) * 0 == 0 && 0 * (x as int) == 0 && 1 * (x as int) == x as int && (x
            as int) * 1 == x as int) by (nonlinear_arith);
        assert((0int) % r == 0);
        if x >= 0 {
            vstd::arithmetic::div_mod::lemma_small_mod(x as nat, r as nat);
        } else {
            vstd::arithmetic::div_mod::lemma_mod_multiples_vanish(1, x as int, r);
            vstd::arithmetic::div_mod::lemma_small_mod((x + r) as nat, r as nat);
        }
    }
}

/// Reduction is the identity on values already inside the signed range.
pub proof fn lemma_crop_in_range(m: int)
    requires
        i64::MIN <= m <= i64::MAX,
    ensures
        vstd::wrapping::i64_specs::signed_crop(m) == m,
{
    let r = wrap_modulus();
    if m >= 0 {
        vstd::arithmetic::div_mod::lemma_small_mod(m as nat, r as nat);
    } else {
        vstd::arithmetic::div_mod::lemma_mod_multiples_vanish(1, m, r);
        vstd::arithmetic::div_mod::lemma_small_mod((m + r) as nat, r as nat);
    }
}

} // verus!
