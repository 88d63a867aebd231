//! Trivial filters: the identity, and a pass-through monitor that hands
//! every n-th sample to an observer.

use vstd::prelude::*;
use crate::filter::{Filter, FilterDesign};

verus! {

/// The filter that returns every sample unchanged.
#[derive(Clone, Copy, Debug, PartialEq, Eq, Structural)]
pub struct Identity;

impl View for Identity {
    type V = Identity;

    open spec fn view(&self) -> Identity {
        Identity
    }
}

impl<A> Filter<A> for Identity {
    type Output = A;

    open spec fn inv(&self) -> bool {
        true
    }

    open spec fn step_spec(v: Identity, a: A) -> Identity {
        Identity
    }

    open spec fn out_spec(v: Identity, a: A) -> A {
        a
    }

    fn apply(&mut self, value: A) -> A {
        value
    }
}

impl<A> FilterDesign<A> for Identity {
    type Output = A;

    type Filter = Identity;

    open spec fn design_req(&self, rate: u32) -> bool {
        true
    }

    open spec fn design_view(&self, rate: u32) -> Identity {
        Identity
    }

    fn design(self, rate: u32) -> Identity {
        Identity
    }
}

/// A side-channel consumer for monitored samples. Observing a sample moves
/// the observer to a state of its own choosing; it cannot touch the sample.
pub trait Observer<A>: Sized {
    /// The observer's state after seeing `a`.
    spec fn observe_spec(&self, a: A) -> Self;

    /// Shows one sample to the observer.
    fn observe(&mut self, a: &A)
        ensures
            *final(self) == old(self).observe_spec(*a),
    ;
}

/// An observer that only counts how many samples it was shown.
#[derive(Clone, Copy, Debug, PartialEq, Eq, Structural)]
pub struct CountObserver {
    pub seen: u64,
}

impl<A> Observer<A> for CountObserver {
    open spec fn observe_spec(&self, a: A) -> CountObserver {
        CountObserver { seen: self.seen.wrapping_add(1) }
    }

    fn observe(&mut self, a: &A) {
        self.seen = self.seen.wrapping_add(1);
    }
}

/// A design for `Monitor`: fires the observer at roughly `freq`
/// observations per second, by deriving the sample stride from the signal
/// rate at instantiation time.
#[derive(Clone, Copy, Debug)]
pub struct MonitorD<F> {
    /// How many times per second the observer should fire.
    pub freq: u32,
    /// The observer to hand samples to.
    pub func: F,
}

/// A pass-through filter that shows every `every`-th sample to an observer
/// and returns the sample unchanged.
#[derive(Clone, Copy, Debug)]
pub struct Monitor<F> {
    pub every: u64,
    pub i: u64,
    pub func: F,
}

impl<F> Monitor<F> {
    /// A monitor that fires on every `every`-th sample.
    pub fn new(every: u64, func: F) -> (r: Monitor<F>)
        ensures
            r == (Monitor { every, i: 0u64, func }),
    {
        Monitor { every, i: 0, func }
    }
}

impl<F> View for Monitor<F> {
    type V = Monitor<F>;

    open spec fn view(&self) -> Monitor<F> {
        *self
    }
}

impl<F, A> Filter<A> for Monitor<F> where F: Observer<A>, A: Copy {
    type Output = A;

    open spec fn inv(&self) -> bool {
        self.i == 0 || self.i < self.every
    }

    open spec fn step_spec(v: Monitor<F>, a: A) -> Monitor<F> {
        if v.i + 1 >= v.every {
            Monitor { every: v.every, i: 0, func: v.func.observe_spec(a) }
        } else {
            Monitor { every: v.every, i: (v.i + 1) as u64, func: v.func }
        }
    }

    open spec fn out_spec(v: Monitor<F>, a: A) -> A {
        a
    }

    fn apply(&mut self, value: A) -> A {
        self.i = self.i + 1;
        if self.i >= self.every {
            self.i = 0;
            self.func.observe(&value);
        }
        value
    }
}

impl<F, A> FilterDesign<A> for MonitorD<F> where F: Observer<A>, A: Copy {
    type Output = A;

    type Filter = Monitor<F>;

    open spec fn design_req(&self, rate: u32) -> bool {
        self.freq > 0
    }

    open spec fn design_view(&self, rate: u32) -> Monitor<F> {
        Monitor { every: ((2 * rate + self.freq) / (2 * self.freq)) as u64, i: 0, func: self.func }
    }

    fn design(self, rate: u32) -> Monitor<F> {
        let every: u64 = (2 * rate as u64 + self.freq as u64) / (2 * self.freq as u64);
        Monitor { every, i: 0, func: self.func }
    }
}

} // verus!
