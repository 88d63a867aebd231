//! The sample-index clock.
//!
//! Time carries no per-sample timestamp in this design: it is derived
//! from the sample index and the rate. `Times` emits the running sample
//! index; dividing it by the rate gives the time in seconds.

use vstd::prelude::*;
use crate::signal::Signal;

verus! {

/// A signal that yields the sample index: 0, 1, 2, ... It exhausts only
/// when the index counter would overflow.
#[derive(Clone, Copy, Debug)]
pub struct Times {
    /// The index the next sample will carry.
    pub step: u64,
    /// The sample rate this clock was built for.
    pub rate: u32,
}

impl Times {
    /// A fresh clock at index zero.
    pub fn new(rate: u32) -> (r: Times)
        ensures
            r == (Times { step: 0u64, rate }),
    {
        Times { step: 0, rate }
    }
}

impl Signal for Times {
    type Sample = u64;

    open spec fn rate_spec(&self) -> u32 {
        self.rate
    }

    open spec fn wf(&self) -> bool {
        true
    }

    open spec fn exact(&self) -> bool {
        true
    }

    open spec fn out(&self, i: nat) -> Option<u64> {
        if self.step + i < u64::MAX {
            Some((self.step + i) as u64)
        } else {
            None
        }
    }

    open spec fn done(&self) -> bool {
        self.step == u64::MAX
    }

    proof fn lemma_stream_wf(&self) {
    }

    fn rate(&self) -> u32 {
        self.rate
    }

    fn next(&mut self) -> (r: Option<u64>) {
        if self.step < u64::MAX {
            let now: u64 = self.step;
            self.step = self.step + 1;
            Some(now)
        } else {
            None
        }
    }
}

} // verus!
