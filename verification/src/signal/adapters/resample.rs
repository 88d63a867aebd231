//! The buffering adapter around a block-oriented rate converter.
//!
//! The adapter accumulates upstream samples into a fixed-size input
//! block (or a shorter one at end of stream), hands blocks to the
//! converter, drops the input the converter consumed, and buffers the
//! produced output for per-sample draw-down. A round in which the
//! converter produces nothing but had input is retried; an empty input
//! block that produces nothing is true end of stream, after which the
//! adapter yields `None` forever. A converter failure is fatal: the
//! adapter records it, ends the stream, and never resumes.
//!
//! The converter's numbers are its own; everything around them is
//! pinned: `refill` states exactly which upstream samples the next
//! converter call is handed, `absorb` states exactly what every
//! possible converter outcome does to the stream state, and `next`
//! states exactly which buffered sample a pull delivers.

use vstd::prelude::*;
use crate::signal::Signal;
use crate::resample::{Error, RateConvert};

verus! {

/// How many upstream samples are gathered per converter call.
pub const RESAMPLE_BLOCK: usize = 4096;

/// How many consecutive converter rounds without any output one `next`
/// call will tolerate. Even an extreme down-conversion consumes input
/// every round, so a converter that exhausts this budget without
/// producing anything is treated as stuck and the stream fails with
/// `Error::BadState`.
pub const RESAMPLE_ROUNDS: u64 = 1048576;

/// A signal whose samples are the rate-converted samples of its
/// upstream, produced by an external block converter.
#[derive(Clone, Debug)]
pub struct Resample<S: Signal, R> {
    /// The upstream signal.
    pub signal: S,
    /// The declared output rate, in samples per second.
    pub rate: u32,
    /// The conversion ratio: output samples per input sample, as the
    /// fraction `ratio_num / ratio_den`.
    pub ratio_num: u32,
    pub ratio_den: u32,
    /// The converter instance; its numeric state is its own.
    pub conv: R,
    /// Input accumulated for the next converter call.
    pub buffer: Vec<S::Sample>,
    /// Converter output being drawn down sample by sample.
    pub buffer_resampled: Vec<S::Sample>,
    /// The next sample of `buffer_resampled` to hand out.
    pub buffer_next: usize,
    /// Whether the stream has ended for good.
    pub ended: bool,
    /// The failure that ended the stream, if one did.
    pub failed: Option<Error>,
}

impl<S, R> Resample<S, R> where S: Signal, S::Sample: Copy, R: RateConvert<S::Sample> {
    /// Converts `signal` to `rate` samples per second using `conv`.
    pub fn new(signal: S, conv: R, rate: u32) -> (r: Resample<S, R>)
        requires
            signal.wf(),
            signal.rate_spec() > 0,
            rate > 0,
        ensures
            r.wf(),
            r.signal == signal,
            r.rate_spec() == rate,
            r.ratio_num == rate,
            r.ratio_den == signal.rate_spec(),
            !r.done(),
            r.failed is None,
            r.buffer@.len() == 0,
            r.buffer_resampled@.len() == 0,
    {
        let den: u32 = signal.rate();
        Resample {
            signal,
            rate,
            ratio_num: rate,
            ratio_den: den,
            conv,
            buffer: Vec::new(),
            buffer_resampled: Vec::new(),
            buffer_next: 0,
            ended: false,
            failed: None,
        }
    }

    /// The failure that ended the stream, if any.
    pub fn last_error(&self) -> (r: Option<Error>)
        ensures
            r == self.failed,
    {
        self.failed
    }

    /// Tops the input block up from the upstream, appending samples in
    /// upstream order until the block holds `RESAMPLE_BLOCK` samples or
    /// the upstream ends. The block this leaves behind is exactly what
    /// the next converter call is handed; nothing else of the adapter
    /// moves.
    pub fn refill(&mut self)
        requires
            old(self).wf(),
        ensures
            final(self).wf(),
            final(self).signal.rate_spec() == old(self).signal.rate_spec(),
            final(self).rate == old(self).rate,
            final(self).ratio_num == old(self).ratio_num,
            final(self).ratio_den == old(self).ratio_den,
            final(self).conv == old(self).conv,
            final(self).buffer_resampled == old(self).buffer_resampled,
            final(self).buffer_next == old(self).buffer_next,
            final(self).ended == old(self).ended,
            final(self).failed == old(self).failed,
            final(self).buffer@.len() <= RESAMPLE_BLOCK,
            old(self).buffer@.len() <= final(self).buffer@.len(),
            final(self).buffer@.subrange(0, old(self).buffer@.len() as int) == old(
                self,
            ).buffer@,
            old(self).signal.exact() ==> final(self).signal.exact(),
            old(self).signal.exact() ==> ({
                let k = final(self).buffer@.len() - old(self).buffer@.len();
                &&& forall|j: int|
                    0 <= j < k ==> #[trigger] final(self).buffer@[old(self).buffer@.len() + j]
                        == old(self).signal.out(j as nat).unwrap() && old(self).signal.out(
                        j as nat,
                    ) is Some
                &&& (final(self).buffer@.len() < RESAMPLE_BLOCK ==> old(self).signal.out(
                    k as nat,
                ) is None)
                &&& forall|i: nat| #[trigger] final(self).signal.out(i) == old(self).signal.out(
                    (i + k) as nat,
                )
            }),
    {
        let base: usize = self.buffer.len();
        while self.buffer.len() < RESAMPLE_BLOCK
            invariant
                old(self).wf(),
                self.signal.wf(),
                self.signal.rate_spec() == old(self).signal.rate_spec(),
                self.rate == old(self).rate,
                self.ratio_num == old(self).ratio_num,
                self.ratio_den == old(self).ratio_den,
                self.conv == old(self).conv,
                self.buffer_resampled == old(self).buffer_resampled,
                self.buffer_next == old(self).buffer_next,
                self.ended == old(self).ended,
                self.failed == old(self).failed,
                base == old(self).buffer@.len(),
                base <= self.buffer@.len(),
                self.buffer@.len() <= RESAMPLE_BLOCK,
                base <= RESAMPLE_BLOCK,
                self.buffer@.subrange(0, base as int) =~= old(self).buffer@,
                old(self).signal.exact() ==> self.signal.exact(),
                old(self).signal.exact() ==> forall|j: int|
                    0 <= j < self.buffer@.len() - base ==> #[trigger] self.buffer@[base + j]
                        == old(self).signal.out(j as nat).unwrap() && old(self).signal.out(
                        j as nat,
                    ) is Some,
                old(self).signal.exact() ==> forall|i: nat| #[trigger]
                    self.signal.out(i) == old(self).signal.out(
                        (i + (self.buffer@.len() - base)) as nat,
                    ),
            decreases RESAMPLE_BLOCK - self.buffer@.len(),
        {
            match self.signal.next() {
                Some(v) => {
                    self.buffer.push(v);
                    proof {
                        assert(self.buffer@.subrange(0, base as int) =~= old(self).buffer@);
                    }
                },
                None => {
                    proof {
                        assert(self.buffer@.subrange(0, base as int) =~= old(self).buffer@);
                        if old(self).signal.exact() {
                            old(self).signal.lemma_stream_wf();
                            let k = (self.buffer@.len() - base) as nat;
                            assert(old(self).signal.out(k) is None);
                            assert forall|i: nat| #[trigger] self.signal.out(i) == old(
                                self,
                            ).signal.out((i + k) as nat) by {
                                assert(self.signal.out(i) == old(self).signal.out(
                                    (i + 1 + k) as nat,
                                ));
                                assert(old(self).signal.out((i + k) as nat) is None);
                                assert(old(self).signal.out((i + 1 + k) as nat) is None);
                            }
                        }
                    }
                    return ;
                },
            }
        }
    }

    /// Absorbs one converter outcome, exactly as the stream rules
    /// demand. A failure is recorded and fatally ends the stream, with
    /// the buffers untouched. A produced block replaces the output
    /// buffer for in-order draw-down, the consumed input leaves the
    /// input block, and producing nothing from an empty input is
    /// completion. Returns whether the stream ended on this outcome.
    pub fn absorb(&mut self, outcome: Result<(Vec<S::Sample>, usize), Error>) -> (ended_now:
        bool)
        requires
            old(self).wf(),
            !old(self).ended,
            (match outcome {
                Ok(p) => p.1 <= old(self).buffer@.len() && p.0@.len() <= RESAMPLE_BLOCK,
                Err(_) => true,
            }),
        ensures
            final(self).wf(),
            final(self).signal == old(self).signal,
            final(self).rate == old(self).rate,
            final(self).ratio_num == old(self).ratio_num,
            final(self).ratio_den == old(self).ratio_den,
            final(self).conv == old(self).conv,
            final(self).ended == ended_now,
            (match outcome {
                Err(e) => {
                    &&& ended_now
                    &&& final(self).failed == Some(e)
                    &&& final(self).buffer == old(self).buffer
                    &&& final(self).buffer_resampled == old(self).buffer_resampled
                    &&& final(self).buffer_next == old(self).buffer_next
                },
                Ok(p) => {
                    &&& final(self).failed == old(self).failed
                    &&& final(self).buffer_resampled@ == p.0@
                    &&& final(self).buffer_next == 0
                    &&& final(self).buffer@ == old(self).buffer@.subrange(
                        p.1 as int,
                        old(self).buffer@.len() as int,
                    )
                    &&& (ended_now <==> (old(self).buffer@.len() == 0 && p.0@.len() == 0))
                },
            }),
    {
        match outcome {
            Ok((produced, input_used)) => {
                let was_empty: bool = self.buffer.len() == 0;
                let nothing_out: bool = produced.len() == 0;
                self.buffer_resampled = produced;
                self.buffer_next = 0;

                // drop the consumed input
                let mut rest: Vec<S::Sample> = Vec::new();
                let mut i: usize = input_used;
                while i < self.buffer.len()
                    invariant
                        input_used <= i <= self.buffer@.len(),
                        rest@ =~= self.buffer@.subrange(input_used as int, i as int),
                    decreases self.buffer@.len() - i,
                {
                    rest.push(self.buffer[i]);
                    proof {
                        assert(rest@ =~= self.buffer@.subrange(input_used as int, i + 1));
                    }
                    i = i + 1;
                }
                self.buffer = rest;

                if was_empty && nothing_out {
                    // no input was left and nothing came out: the
                    // conversion is complete.
                    self.ended = true;
                    true
                } else {
                    false
                }
            },
            Err(e) => {
                // fatal: record the failure and end the stream.
                self.failed = Some(e);
                self.ended = true;
                true
            },
        }
    }
}

impl<S, R> Signal for Resample<S, R> where S: Signal, S::Sample: Copy, R: RateConvert<S::Sample> {
    type Sample = S::Sample;

    open spec fn rate_spec(&self) -> u32 {
        self.rate
    }

    open spec fn wf(&self) -> bool {
        self.signal.wf() && self.ratio_num > 0 && self.ratio_den > 0 && (self.failed is Some
            ==> self.ended) && self.buffer@.len() <= RESAMPLE_BLOCK
            && self.buffer_resampled@.len() <= RESAMPLE_BLOCK
    }

    /// What the converter returns is not a function of this state, so
    /// the stream carries no closed-form model; `next`, `refill` and
    /// `absorb` pin the behaviour clause by clause instead.
    open spec fn exact(&self) -> bool {
        false
    }

    open spec fn out(&self, i: nat) -> Option<S::Sample> {
        None
    }

    open spec fn done(&self) -> bool {
        self.ended
    }

    proof fn lemma_stream_wf(&self) {
    }

    fn rate(&self) -> u32 {
        self.rate
    }

    fn next(&mut self) -> (r: Option<S::Sample>)
        ensures
            // an ended stream stays exactly as it is
            old(self).ended ==> *final(self) == *old(self),
            // a sample owed from the converted block is delivered, in
            // order, and nothing else of the adapter moves
            (!old(self).ended && old(self).buffer_next < old(self).buffer_resampled@.len())
                ==> ({
                &&& r == Some(old(self).buffer_resampled@[old(self).buffer_next as int])
                &&& final(self).buffer_next == old(self).buffer_next + 1
                &&& final(self).buffer_resampled == old(self).buffer_resampled
                &&& final(self).buffer == old(self).buffer
                &&& final(self).signal == old(self).signal
                &&& final(self).conv == old(self).conv
                &&& final(self).failed == old(self).failed
                &&& !final(self).ended
            }),
            // whatever came back: every delivered sample is the next
            // unread sample of the converted block
            r is Some ==> ({
                &&& final(self).buffer_next >= 1
                &&& r == Some(final(self).buffer_resampled@[final(self).buffer_next - 1])
                &&& !final(self).ended
                &&& final(self).failed == old(self).failed
            }),
            // a failure is never silently swallowed: it latches the end
            // and stays readable
            final(self).failed is Some ==> final(self).ended && r is None,
            old(self).failed is Some ==> final(self).failed == old(self).failed,
    {
        if self.ended {
            return None;
        }
        if self.buffer_next < self.buffer_resampled.len() {
            let v: S::Sample = self.buffer_resampled[self.buffer_next];
            self.buffer_next = self.buffer_next + 1;
            return Some(v);
        }
        let mut rounds: u64 = RESAMPLE_ROUNDS;
        while self.buffer_next >= self.buffer_resampled.len()
            invariant
                old(self).wf(),
                !old(self).ended,
                old(self).buffer_next >= old(self).buffer_resampled@.len(),
                self.wf(),
                self.rate == old(self).rate,
                !self.ended,
                self.failed == old(self).failed,
                self.signal.rate_spec() == old(self).signal.rate_spec(),
            decreases rounds,
        {
            if rounds == 0 {
                self.failed = Some(Error::BadState);
                self.ended = true;
                return None;
            }
            rounds = rounds - 1;
            self.refill();
            let outcome = self.conv.process(
                self.ratio_num,
                self.ratio_den,
                &self.buffer,
                RESAMPLE_BLOCK,
            );
            if self.absorb(outcome) {
                return None;
            }
        }
        let v: S::Sample = self.buffer_resampled[self.buffer_next];
        self.buffer_next = self.buffer_next + 1;
        Some(v)
    }
}

} // verus!
