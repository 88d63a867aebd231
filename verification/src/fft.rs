//! Frequency-domain bin bookkeeping.
//!
//! The numeric Fourier transform itself is an outside numeric
//! collaborator working on floating-point samples; what belongs to this
//! crate is the bin arithmetic around it: re-ordering a transform's
//! output so that bin 0 is the most negative frequency (DC-centered
//! order), labeling each bin with its signed offset from DC, and
//! discarding the redundant negative-frequency half for real inputs.
//! Bin `i` of the collated output corresponds to the frequency
//! `offset_i * rate / n`, where `offset_i = i - n/2` is the label this
//! module computes.

use vstd::prelude::*;

verus! {

/// The source index in transform order for collated bin `i` of `n`:
/// `i - n/2`, wrapped into `0..n`.
pub open spec fn collate_src(i: int, n: int) -> int {
    if i >= n / 2 {
        i - n / 2
    } else {
        i - n / 2 + n
    }
}

/// Reorders a transform output into DC-centered order and labels every
/// bin with its signed frequency offset `i - n/2`: bin 0 becomes the
/// most negative frequency, bin `n/2` the zero frequency.
pub fn collate<T>(spectrum: Vec<T>) -> (r: Vec<(i64, T)>) where T: Copy
    requires
        spectrum@.len() <= 0x7fff_ffff,
    ensures
        r@.len() == spectrum@.len(),
        forall|i: int|
            0 <= i < r@.len() ==> #[trigger] r@[i] == (
                (i - spectrum@.len() / 2) as i64,
                spectrum@[collate_src(i, spectrum@.len() as int)],
            ),
{
    let n: usize = spectrum.len();
    let half: usize = n / 2;
    let mut r: Vec<(i64, T)> = Vec::new();
    let mut i: usize = 0;
    while i < n
        invariant
            n == spectrum@.len(),
            half == n / 2,
            n <= 0x7fff_ffff,
            i <= n,
            r@.len() == i,
            forall|j: int|
                0 <= j < i ==> #[trigger] r@[j] == (
                    (j - n / 2) as i64,
                    spectrum@[collate_src(j, n as int)],
                ),
        decreases n - i,
    {
        let src: usize = if i >= half {
            i - half
        } else {
            i + n - half
        };
        let offset: i64 = i as i64 - half as i64;
        r.push((offset, spectrum[src]));
        i = i + 1;
    }
    r
}

/// Drops the negative-frequency half of a DC-centered spectrum, keeping
/// the bins from zero frequency up: the suffix starting at `n/2`. For a
/// transform of real input the dropped half is redundant.
pub fn positive_half<T>(spectrum: Vec<T>) -> (r: Vec<T>) where T: Copy
    ensures
        r@ == spectrum@.subrange(spectrum@.len() as int / 2, spectrum@.len() as int),
{
    let n: usize = spectrum.len();
    let mut r: Vec<T> = Vec::new();
    let mut i: usize = n / 2;
    while i < n
        invariant
            n == spectrum@.len(),
            n / 2 <= i <= n,
            r@ =~= spectrum@.subrange(n as int / 2, i as int),
        decreases n - i,
    {
        r.push(spectrum[i]);
        proof {
            assert(r@ =~= spectrum@.subrange(n as int / 2, i + 1));
        }
        i = i + 1;
    }
    proof {
        assert(r@ =~= spectrum@.subrange(n as int / 2, n as int));
    }
    r
}

} // verus!
