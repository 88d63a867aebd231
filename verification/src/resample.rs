//! The block-oriented sample-rate converter interface.
//!
//! Rate conversion itself is an external numeric collaborator: given a
//! conversion ratio and a finite input block it produces as many output
//! samples as it can and reports how many input samples it consumed, and
//! it signals completion by producing nothing when handed no input. This
//! module fixes that interface and its failure domain; the buffering
//! adapter around it lives with the other signal adapters.

use vstd::prelude::*;

verus! {

/// A converter failure. Fatal to the pipeline stage: the adapter stops
/// and never resumes, and the caller decides whether to abort or
/// substitute.
#[derive(Clone, Copy, Debug, PartialEq, Eq, Structural)]
pub enum Error {
    /// The converter's internal state is malformed.
    BadState,
    /// The requested conversion ratio is out of the converter's range.
    BadRatio,
    /// The converter could not allocate.
    MallocFailed,
    /// The data does not match the converter's channel count.
    BadChannelCount,
    /// Any other converter-specific failure code.
    Unknown(u32),
}

/// A block-oriented rate converter.
///
/// `process` feeds one input block at a conversion ratio of
/// `ratio_num / ratio_den` output samples per input sample, with room
/// for at most `max_out` output samples, and reports how many input
/// samples it consumed. An empty input block signals end of stream; the
/// conversion is complete when an empty input produces an empty output.
/// A converter owns its state: distinct instances never interfere.
pub trait RateConvert<A>: Sized {
    /// Converts one block. What comes back beyond these bounds depends
    /// on the converter's numeric algorithm.
    fn process(&mut self, ratio_num: u32, ratio_den: u32, input: &Vec<A>, max_out: usize) -> (r:
        Result<(Vec<A>, usize), Error>)
        requires
            ratio_num > 0,
            ratio_den > 0,
        ensures
            (match r {
                Ok(p) => p.1 <= input@.len() && p.0@.len() <= max_out,
                Err(_) => true,
            }),
    ;
}

/// The converter that changes nothing: a ratio-one pass-through. It
/// consumes as much input as the output block can hold and copies it
/// unchanged, so `N` samples in are exactly `N` samples out.
#[derive(Clone, Copy, Debug, PartialEq, Eq, Structural)]
pub struct IdentityConverter;

impl<A> RateConvert<A> for IdentityConverter where A: Copy {
    fn process(&mut self, ratio_num: u32, ratio_den: u32, input: &Vec<A>, max_out: usize) -> (r:
        Result<(Vec<A>, usize), Error>)
        ensures
            r is Ok,
            ({
                let used = if input@.len() <= max_out {
                    input@.len() as int
                } else {
                    max_out as int
                };
                r.unwrap().1 == used && r.unwrap().0@ == input@.subrange(0, used)
            }),
    {
        let used: usize = if input.len() <= max_out {
            input.len()
        } else {
            max_out
        };
        let mut out: Vec<A> = Vec::new();
        let mut i: usize = 0;
        while i < used
            invariant
                used <= input@.len(),
                i <= used,
                out@ =~= input@.subrange(0, i as int),
            decreases used - i,
        {
            out.push(input[i]);
            proof {
                assert(out@ =~= input@.subrange(0, i + 1));
            }
            i = i + 1;
        }
        Ok((out, used))
    }
}

} // verus!
