//! Finite-difference derivative filter designs.
//!
//! A derivative design names a stencil kind (central, forward or
//! backward), the derivative order, and the accuracy order. The design
//! determines a FIR coefficient vector by solving a small linear system
//! over the stencil taps; that numeric solve runs in floating point and
//! is outside this crate. What is decided here, exactly: the effective
//! accuracy (central differences of odd accuracy do not exist in the
//! standard formulation, so central accuracy rounds up to even), and the
//! tap range of the stencil.

use vstd::prelude::*;

verus! {

/// A derivative filter design: stencil kind, derivative order, accuracy
/// order.
#[derive(Clone, Copy, Debug, PartialEq, Eq, Structural)]
pub enum Derivative {
    /// A central stencil, symmetric around the sample.
    Center(u32, u32),
    /// A one-sided stencil over the samples ahead.
    Forward(u32, u32),
    /// A one-sided stencil over the samples behind.
    Backward(u32, u32),
}

impl Derivative {
    /// The derivative order requested.
    pub fn derivative(&self) -> (r: u32)
        ensures
            r == (match *self {
                Derivative::Center(deriv, _) => deriv,
                Derivative::Forward(deriv, _) => deriv,
                Derivative::Backward(deriv, _) => deriv,
            }),
    {
        match self {
            Derivative::Center(deriv, _) => *deriv,
            Derivative::Forward(deriv, _) => *deriv,
            Derivative::Backward(deriv, _) => *deriv,
        }
    }

    /// The accuracy order requested.
    pub fn accuracy(&self) -> (r: u32)
        ensures
            r == (match *self {
                Derivative::Center(_, acc) => acc,
                Derivative::Forward(_, acc) => acc,
                Derivative::Backward(_, acc) => acc,
            }),
    {
        match self {
            Derivative::Center(_, acc) => *acc,
            Derivative::Forward(_, acc) => *acc,
            Derivative::Backward(_, acc) => *acc,
        }
    }

    /// The accuracy order actually used: central differences of odd
    /// accuracy do not exist, so a central design rounds its accuracy up
    /// to the next even number.
    pub fn effective_accuracy(&self) -> (r: u64)
        ensures
            r == (match *self {
                Derivative::Center(_, acc) => acc + (acc % 2),
                Derivative::Forward(_, acc) => acc as int,
                Derivative::Backward(_, acc) => acc as int,
            }),
    {
        match self {
            Derivative::Center(_, acc) => *acc as u64 + (*acc as u64 % 2),
            Derivative::Forward(_, acc) => *acc as u64,
            Derivative::Backward(_, acc) => *acc as u64,
        }
    }

    /// The stencil's tap range, as offsets from the current sample: a
    /// central stencil of derivative `d` and effective accuracy `a`
    /// spans `2*((d+1)/2) - 1 + a` taps symmetric around zero; a
    /// one-sided stencil of `d + a` taps sits wholly ahead of or wholly
    /// behind the sample.
    pub fn taps(&self) -> (r: (i64, i64))
        requires
            (match *self {
                Derivative::Center(deriv, acc) => deriv >= 1 || acc >= 1,
                Derivative::Forward(_, _) => true,
                Derivative::Backward(_, _) => true,
            }),
        ensures
            r == (match *self {
                Derivative::Center(deriv, acc) => {
                    let size = 2 * ((deriv + 1) / 2) - 1 + (acc + acc % 2);
                    ((-(size / 2)) as i64, (size / 2) as i64)
                },
                Derivative::Forward(deriv, acc) => if deriv + acc == 0 {
                    (0i64, 0i64)
                } else {
                    (0i64, (deriv + acc - 1) as i64)
                },
                Derivative::Backward(deriv, acc) => if deriv + acc == 0 {
                    (0i64, 0i64)
                } else {
                    ((-(deriv + acc - 1)) as i64, 0i64)
                },
            }),
            r.0 <= 0 <= r.1,
    {
        match self {
            Derivative::Center(deriv, acc) => {
                let size: u64 = 2 * ((*deriv as u64 + 1) / 2) + (*acc as u64 + *acc as u64 % 2)
                    - 1;
                let half: i64 = (size / 2) as i64;
                (-half, half)
            },
            Derivative::Forward(deriv, acc) => {
                let size: u64 = *deriv as u64 + *acc as u64;
                if size == 0 {
                    (0, 0)
                } else {
                    (0, (size - 1) as i64)
                }
            },
            Derivative::Backward(deriv, acc) => {
                let size: u64 = *deriv as u64 + *acc as u64;
                if size == 0 {
                    (0, 0)
                } else {
                    (-((size - 1) as i64), 0)
                }
            },
        }
    }
}

} // verus!
