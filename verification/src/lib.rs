//! A composable software-defined-radio signal-processing core.
//!
//! A `Signal` is a pull-based, rate-tagged, possibly infinite sequence of
//! samples. Adapters wrap a signal by value and expose the same interface,
//! so arbitrarily deep chains can be built. Filters are stateful per-sample
//! transforms instantiated from immutable designs at a concrete sample rate.
//!
//! All sample arithmetic is exact fixed-point integer arithmetic, so every
//! transform in this crate carries a contract that pins its result down.

use vstd::prelude::*;

pub mod complex;
pub mod filter;
pub mod signal;
pub mod resample;
pub mod rtltcp;
pub mod fft;
pub mod fir;

pub use signal::Signal;
pub use filter::Filter;
pub use filter::FilterDesign;

verus! {

/// Round `rate * duration` to a whole number of samples, with the duration
/// given in milliseconds. Half-sample results round up.
pub open spec fn duration_samples_spec(rate: u32, millis: u64) -> int {
    ((rate * millis) + 500) / 1000
}

/// The number of samples covering `millis` milliseconds at `rate` samples
/// per second.
pub fn duration_samples(rate: u32, millis: u64) -> (r: u64)
    requires
        rate * millis + 500 <= u64::MAX,
    ensures
        r == duration_samples_spec(rate, millis),
{
    ((rate as u64) * millis + 500) / 1000
}

} // verus!
