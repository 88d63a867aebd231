//! Lazy signal adapters.
//!
//! Each adapter consumes its upstream signal by value and exposes the
//! same pull-based interface. Adapters that pass one sample through per
//! upstream sample (map, filter, take, skip) keep the upstream rate.

use vstd::prelude::*;
use crate::signal::Signal;
use crate::filter::Filter as FilterTrait;
use crate::filter::convolve::Convolve;

pub mod tee;
pub mod resample;
pub mod block;

verus! {

/// Yields at most a fixed number of upstream samples, then ends, however
/// long the upstream runs on.
#[derive(Clone, Copy, Debug)]
pub struct Take<S> {
    /// The upstream signal.
    pub signal: S,
    /// How many samples may still be yielded.
    pub remaining: u64,
}

impl<S> Take<S> where S: Signal {
    /// Passes through the next `count` upstream samples, then ends.
    pub fn new(signal: S, count: u64) -> (r: Take<S>)
        ensures
            r == (Take { signal, remaining: count }),
    {
        Take { signal, remaining: count }
    }
}

impl<S> Signal for Take<S> where S: Signal {
    type Sample = S::Sample;

    open spec fn rate_spec(&self) -> u32 {
        self.signal.rate_spec()
    }

    open spec fn wf(&self) -> bool {
        self.signal.wf()
    }

    open spec fn exact(&self) -> bool {
        self.signal.exact()
    }

    open spec fn out(&self, i: nat) -> Option<S::Sample> {
        if i < self.remaining {
            self.signal.out(i)
        } else {
            None
        }
    }

    open spec fn done(&self) -> bool {
        self.remaining == 0 || self.signal.done()
    }

    proof fn lemma_stream_wf(&self) {
        self.signal.lemma_stream_wf();
    }

    fn rate(&self) -> u32 {
        self.signal.rate()
    }

    fn next(&mut self) -> (r: Option<S::Sample>) {
        if self.remaining > 0 {
            self.remaining = self.remaining - 1;
            let r = self.signal.next();
            proof {
                if old(self).exact() {
                    assert forall|i: nat| #[trigger] self.out(i) == old(self).out(i + 1) by {
                        assert(self.signal.out(i) == old(self).signal.out(i + 1));
                    }
                }
            }
            r
        } else {
            None
        }
    }
}

/// Discards a fixed number of upstream samples before yielding anything;
/// if the upstream ends mid-skip, yields nothing at all.
#[derive(Clone, Copy, Debug)]
pub struct Skip<S> {
    /// The upstream signal.
    pub signal: S,
    /// How many upstream samples are still to be discarded.
    pub remaining: u64,
}

impl<S> Skip<S> where S: Signal {
    /// Discards the next `count` upstream samples.
    pub fn new(signal: S, count: u64) -> (r: Skip<S>)
        ensures
            r == (Skip { signal, remaining: count }),
    {
        Skip { signal, remaining: count }
    }
}

impl<S> Signal for Skip<S> where S: Signal {
    type Sample = S::Sample;

    open spec fn rate_spec(&self) -> u32 {
        self.signal.rate_spec()
    }

    open spec fn wf(&self) -> bool {
        self.signal.wf()
    }

    open spec fn exact(&self) -> bool {
        self.signal.exact()
    }

    open spec fn out(&self, i: nat) -> Option<S::Sample> {
        self.signal.out((i + self.remaining) as nat)
    }

    open spec fn done(&self) -> bool {
        self.signal.done()
    }

    proof fn lemma_stream_wf(&self) {
        self.signal.lemma_stream_wf();
    }

    fn rate(&self) -> u32 {
        self.signal.rate()
    }

    fn next(&mut self) -> (r: Option<S::Sample>) {
        while self.remaining > 0
            invariant
                old(self).wf(),
                self.signal.wf(),
                self.signal.rate_spec() == old(self).signal.rate_spec(),
                old(self).exact() ==> self.signal.exact(),
                old(self).exact() ==> forall|j: nat| #[trigger]
                    self.signal.out(j) == old(self).signal.out(
                        (j + (old(self).remaining - self.remaining)) as nat,
                    ),
                self.remaining <= old(self).remaining,
                old(self).signal.done() ==> self.signal.done(),
            decreases self.remaining,
        {
            self.remaining = self.remaining - 1;
            let pulled = self.signal.next();
            if pulled.is_none() {
                proof {
                    if old(self).exact() {
                        old(self).signal.lemma_stream_wf();
                        let s0 = (old(self).remaining - self.remaining - 1) as nat;
                        assert(old(self).signal.out(s0) is None);
                        assert forall|i: nat| #[trigger] self.out(i) == old(self).out(i + 1) by {
                            assert(self.signal.out((i + self.remaining) as nat) == old(
                                self,
                            ).signal.out((i + old(self).remaining) as nat));
                            assert(old(self).signal.out((i + old(self).remaining) as nat)
                                is None);
                            assert(old(self).signal.out((i + 1 + old(self).remaining) as nat)
                                is None);
                        }
                        assert(old(self).signal.out((old(self).remaining) as nat) is None);
                    }
                }
                return None;
            }
        }
        let r = self.signal.next();
        proof {
            if old(self).exact() {
                assert(r == old(self).signal.out((old(self).remaining) as nat));
                assert forall|i: nat| #[trigger] self.out(i) == old(self).out(i + 1) by {
                    assert(self.signal.out((i + self.remaining) as nat) == old(
                        self,
                    ).signal.out((i + 1 + old(self).remaining) as nat));
                }
            }
        }
        r
    }
}

/// A pure per-sample transformation, with its meaning given by a spec
/// function, so mapped streams stay exactly described.
pub trait SampleMap<A>: Sized {
    /// The type of transformed samples.
    type Out;

    /// The value `call` returns on `a`.
    spec fn fmap(&self, a: A) -> Self::Out;

    /// Transforms one sample.
    fn call(&self, a: A) -> (r: Self::Out)
        ensures
            r == self.fmap(a),
    ;
}

/// The transformation that scales every sample by a constant, in
/// wrapping arithmetic.
#[derive(Clone, Copy, Debug, PartialEq, Eq, Structural)]
pub struct Scale {
    /// The factor every sample is multiplied by.
    pub factor: i64,
}

impl SampleMap<i64> for Scale {
    type Out = i64;

    open spec fn fmap(&self, a: i64) -> i64 {
        a.wrapping_mul(self.factor)
    }

    fn call(&self, a: i64) -> i64 {
        a.wrapping_mul(self.factor)
    }
}

/// The transformation that keeps the real part of a complex sample.
#[derive(Clone, Copy, Debug, PartialEq, Eq, Structural)]
pub struct RealPart;

impl SampleMap<crate::complex::Complex> for RealPart {
    type Out = i64;

    open spec fn fmap(&self, a: crate::complex::Complex) -> i64 {
        a.re
    }

    fn call(&self, a: crate::complex::Complex) -> i64 {
        a.re
    }
}

/// Applies a pure transformation to every sample; ends when the upstream
/// ends; keeps the upstream rate.
#[derive(Clone, Copy, Debug)]
pub struct Mapped<S, F> {
    /// The upstream signal.
    pub signal: S,
    /// The per-sample transformation.
    pub f: F,
}

impl<S, F> Mapped<S, F> {
    /// Applies `f` to every sample of `signal`.
    pub fn new(signal: S, f: F) -> (r: Mapped<S, F>)
        ensures
            r == (Mapped { signal, f }),
    {
        Mapped { signal, f }
    }
}

impl<S, F> Signal for Mapped<S, F> where S: Signal, F: SampleMap<S::Sample> {
    type Sample = F::Out;

    open spec fn rate_spec(&self) -> u32 {
        self.signal.rate_spec()
    }

    open spec fn wf(&self) -> bool {
        self.signal.wf()
    }

    open spec fn exact(&self) -> bool {
        self.signal.exact()
    }

    open spec fn out(&self, i: nat) -> Option<F::Out> {
        match self.signal.out(i) {
            Some(v) => Some(self.f.fmap(v)),
            None => None,
        }
    }

    open spec fn done(&self) -> bool {
        self.signal.done()
    }

    proof fn lemma_stream_wf(&self) {
        self.signal.lemma_stream_wf();
    }

    fn rate(&self) -> u32 {
        self.signal.rate()
    }

    fn next(&mut self) -> (r: Option<F::Out>) {
        match self.signal.next() {
            Some(v) => Some(self.f.call(v)),
            None => None,
        }
    }
}

/// Drops `factor - 1` upstream samples, then emits the next one, for
/// each output sample; ends as soon as any of those pulls ends. The
/// reported rate is the nominal one fixed at construction — the
/// requested target, or `rate / factor` — not the rate actually
/// achieved, which may drift from it for non-integer ratios: a known
/// approximation of this design.
#[derive(Clone, Copy, Debug)]
pub struct Decimate<S> {
    /// The upstream signal.
    pub signal: S,
    /// The decimation factor; at least one.
    pub wait: u64,
    /// The nominal output rate reported to consumers.
    pub rate: u32,
}

impl<S> Decimate<S> where S: Signal {
    /// Keeps one upstream sample in every `factor`, reporting the
    /// nominal rate `rate / factor`.
    pub fn new(signal: S, factor: u64) -> (r: Decimate<S>)
        requires
            signal.wf(),
            factor >= 1,
        ensures
            r == (Decimate {
                signal,
                wait: factor,
                rate: ((signal.rate_spec() as int) / (factor as int)) as u32,
            }),
    {
        let rate: u32 = signal.rate();
        let nominal: u32 = ((rate as u64) / factor) as u32;
        Decimate { signal, wait: factor, rate: nominal }
    }

    /// Decimates toward a requested target rate: the stride is
    /// `round(rate / target)`, and the reported rate is the requested
    /// target itself. The achieved rate is `rate / stride` and drifts
    /// from the target for non-integer ratios.
    pub fn toward_rate(signal: S, target: u32) -> (r: Decimate<S>)
        requires
            signal.wf(),
            target >= 1,
            target <= 2 * signal.rate_spec(),
        ensures
            r == (Decimate {
                signal,
                wait: ((2 * signal.rate_spec() + target) / (2 * target)) as u64,
                rate: target,
            }),
            r.wait >= 1,
    {
        let rate: u32 = signal.rate();
        proof {
            assert((2 * (rate as int) + target) / (2 * (target as int)) >= 1)
                by (nonlinear_arith)
                requires
                    target >= 1,
                    target <= 2 * rate,
            ;
        }
        let wait: u64 = (2 * rate as u64 + target as u64) / (2 * target as u64);
        Decimate { signal, wait, rate: target }
    }
}

impl<S> Signal for Decimate<S> where S: Signal {
    type Sample = S::Sample;

    open spec fn rate_spec(&self) -> u32 {
        self.rate
    }

    open spec fn wf(&self) -> bool {
        self.signal.wf() && self.wait >= 1
    }

    open spec fn exact(&self) -> bool {
        self.signal.exact()
    }

    open spec fn out(&self, i: nat) -> Option<S::Sample> {
        self.signal.out(((i + 1) * self.wait - 1) as nat)
    }

    open spec fn done(&self) -> bool {
        self.signal.done()
    }

    proof fn lemma_stream_wf(&self) {
        self.signal.lemma_stream_wf();
        assert forall|i: nat, j: nat|
            #![trigger self.out(i), self.out(j)]
            i <= j && self.out(i) is None implies self.out(j) is None by {
            assert((i + 1) * self.wait >= 1 && (j + 1) * self.wait >= 1 && (i + 1) * self.wait
                <= (j + 1) * self.wait) by (nonlinear_arith)
                requires
                    i <= j,
                    self.wait >= 1,
            ;
        }
        assert((0 + 1) * self.wait - 1 == self.wait - 1) by (nonlinear_arith)
            requires
                self.wait >= 1,
        ;
        if self.signal.done() {
            assert(self.signal.out((self.wait - 1) as nat) is None);
        }
    }

    fn rate(&self) -> u32 {
        self.rate
    }

    fn next(&mut self) -> (r: Option<S::Sample>) {
        let mut k: u64 = 0;
        while k < self.wait - 1
            invariant
                old(self).wf(),
                self.signal.wf(),
                self.rate == old(self).rate,
                self.wait == old(self).wait,
                self.wait >= 1,
                k <= self.wait - 1,
                self.signal.rate_spec() == old(self).signal.rate_spec(),
                old(self).exact() ==> self.signal.exact(),
                old(self).exact() ==> forall|j: nat| #[trigger]
                    self.signal.out(j) == old(self).signal.out((j + k) as nat),
                old(self).signal.done() ==> self.signal.done(),
            decreases self.wait - 1 - k,
        {
            let pulled = self.signal.next();
            k = k + 1;
            if pulled.is_none() {
                proof {
                    if old(self).exact() {
                        old(self).signal.lemma_stream_wf();
                        assert(old(self).signal.out((k - 1) as nat) is None);
                        assert forall|i: nat| #[trigger] self.out(i) == old(self).out(i + 1) by {
                            assert((i + 1) * self.wait >= self.wait && (i + 2) * self.wait == (i
                                + 1) * self.wait + self.wait) by (nonlinear_arith)
                                requires
                                    self.wait >= 1,
                            ;
                            let a = ((i + 1) * self.wait - 1 + k) as nat;
                            let b = ((i + 2) * self.wait - 1) as nat;
                            assert(self.signal.out(((i + 1) * self.wait - 1) as nat) == old(
                                self,
                            ).signal.out(a));
                            assert(k - 1 <= a && k - 1 <= b);
                            assert(old(self).signal.out(a) is None);
                            assert(old(self).signal.out(b) is None);
                        }
                        assert(self.wait - 1 == (0 + 1) * self.wait - 1) by (nonlinear_arith)
                            requires
                                self.wait >= 1,
                        ;
                        assert(old(self).signal.out((self.wait - 1) as nat) is None);
                    }
                }
                return None;
            }
        }
        let r = self.signal.next();
        proof {
            if old(self).exact() {
                assert forall|i: nat| #[trigger] self.out(i) == old(self).out(i + 1) by {
                    assert((i + 1) * self.wait >= self.wait && (i + 2) * self.wait == (i + 1)
                        * self.wait + self.wait) by (nonlinear_arith)
                        requires
                            self.wait >= 1,
                    ;
                    assert(self.signal.out(((i + 1) * self.wait - 1) as nat) == old(
                        self,
                    ).signal.out(((i + 1) * self.wait - 1 + self.wait) as nat));
                }
                assert(self.wait - 1 == (0 + 1) * self.wait - 1) by (nonlinear_arith)
                    requires
                        self.wait >= 1,
                ;
                assert(r == old(self).signal.out((self.wait - 1) as nat));
            }
        }
        r
    }
}

/// The filter state reached from `f0` after consuming the first `i`
/// samples that the upstream signal `s` will emit; an exhausted upstream
/// leaves the state where it is.
pub open spec fn filter_state_at<S, F>(f0: F::V, s: S, i: nat) -> F::V
    where S: Signal, F: FilterTrait<S::Sample>
    decreases i,
{
    if i == 0 {
        f0
    } else {
        let prev = filter_state_at::<S, F>(f0, s, (i - 1) as nat);
        match s.out((i - 1) as nat) {
            Some(v) => F::step_spec(prev, v),
            None => prev,
        }
    }
}

/// Pulling one sample commutes with the filter-state fold: running the
/// stepped state over the shifted stream is running the initial state
/// one sample further.
proof fn lemma_filter_state_shift<S, F>(f0: F::V, s: S, s2: S, v: S::Sample, i: nat)
    where S: Signal, F: FilterTrait<S::Sample>
    requires
        s.out(0) == Some(v),
        forall|j: nat| #[trigger] s2.out(j) == s.out(j + 1),
    ensures
        filter_state_at::<S, F>(F::step_spec(f0, v), s2, i) == filter_state_at::<S, F>(
            f0,
            s,
            (i + 1) as nat,
        ),
    decreases i,
{
    if i == 0 {
        assert(filter_state_at::<S, F>(f0, s, 0) == f0);
        assert(filter_state_at::<S, F>(F::step_spec(f0, v), s2, 0) == F::step_spec(f0, v));
    } else {
        lemma_filter_state_shift::<S, F>(f0, s, s2, v, (i - 1) as nat);
        assert(s2.out((i - 1) as nat) == s.out(((i - 1) + 1) as nat));
    }
}

/// Applies a stateful filter to every sample. The design is instantiated
/// at the upstream's rate when the adapter is built; the output stream is
/// the filter's run over the upstream stream.
#[derive(Clone, Copy, Debug)]
pub struct Filter<S, F> {
    /// The upstream signal.
    pub signal: S,
    /// The filter instance, already designed for the upstream rate.
    pub filter: F,
}

impl<S, F> Filter<S, F> where S: Signal, F: FilterTrait<S::Sample> {
    /// Instantiates `design` at the rate of `signal` and applies the
    /// resulting filter to every sample.
    pub fn new<D>(signal: S, design: D) -> (r: Filter<S, F>)
        where D: crate::filter::FilterDesign<S::Sample, Filter = F, Output = F::Output>
        requires
            signal.wf(),
            design.design_req(signal.rate_spec()),
        ensures
            r.signal == signal,
            r.filter@ == design.design_view(signal.rate_spec()),
            r.wf(),
    {
        let rate: u32 = signal.rate();
        Filter { filter: design.design(rate), signal }
    }
}

impl<S, F> Signal for Filter<S, F> where S: Signal, F: FilterTrait<S::Sample> {
    type Sample = F::Output;

    open spec fn rate_spec(&self) -> u32 {
        self.signal.rate_spec()
    }

    open spec fn wf(&self) -> bool {
        self.signal.wf() && self.filter.inv()
    }

    open spec fn exact(&self) -> bool {
        self.signal.exact()
    }

    open spec fn out(&self, i: nat) -> Option<F::Output> {
        match self.signal.out(i) {
            Some(v) => Some(
                F::out_spec(filter_state_at::<S, F>(self.filter@, self.signal, i), v),
            ),
            None => None,
        }
    }

    open spec fn done(&self) -> bool {
        self.signal.done()
    }

    proof fn lemma_stream_wf(&self) {
        self.signal.lemma_stream_wf();
    }

    fn rate(&self) -> u32 {
        self.signal.rate()
    }

    fn next(&mut self) -> (r: Option<F::Output>) {
        match self.signal.next() {
            Some(v) => {
                let out = self.filter.apply(v);
                proof {
                    if old(self).exact() {
                        assert forall|i: nat| #[trigger] self.out(i) == old(self).out(i + 1) by {
                            lemma_filter_state_shift::<S, F>(
                                old(self).filter@,
                                old(self).signal,
                                self.signal,
                                v,
                                i,
                            );
                        }
                    }
                }
                Some(out)
            },
            None => {
                proof {
                    if old(self).exact() {
                        old(self).signal.lemma_stream_wf();
                        assert forall|i: nat| #[trigger] self.out(i) == old(self).out(i + 1) by {
                            assert(old(self).signal.out(i + 1) is None);
                            assert(self.signal.out(i) is None);
                        }
                    }
                }
                None
            },
        }
    }
}

/// Pairs every sample with its running index; dividing the index by the
/// rate gives the sample's time. The index saturates at the counter
/// limit rather than wrapping.
#[derive(Clone, Copy, Debug)]
pub struct Enumerate<S> {
    /// The upstream signal.
    pub signal: S,
    /// The index the next sample will carry.
    pub base: u64,
}

/// The index carried by the sample `i` positions from now.
pub open spec fn enum_index(base: u64, i: nat) -> u64 {
    if base + i < u64::MAX {
        (base + i) as u64
    } else {
        u64::MAX
    }
}

impl<S> Enumerate<S> where S: Signal {
    /// Pairs every sample of `signal` with its index, starting at zero.
    pub fn new(signal: S) -> (r: Enumerate<S>)
        ensures
            r == (Enumerate { signal, base: 0u64 }),
    {
        Enumerate { signal, base: 0 }
    }
}

impl<S> Signal for Enumerate<S> where S: Signal {
    type Sample = (u64, S::Sample);

    open spec fn rate_spec(&self) -> u32 {
        self.signal.rate_spec()
    }

    open spec fn wf(&self) -> bool {
        self.signal.wf()
    }

    open spec fn exact(&self) -> bool {
        self.signal.exact()
    }

    open spec fn out(&self, i: nat) -> Option<(u64, S::Sample)> {
        match self.signal.out(i) {
            Some(v) => Some((enum_index(self.base, i), v)),
            None => None,
        }
    }

    open spec fn done(&self) -> bool {
        self.signal.done()
    }

    proof fn lemma_stream_wf(&self) {
        self.signal.lemma_stream_wf();
    }

    fn rate(&self) -> u32 {
        self.signal.rate()
    }

    fn next(&mut self) -> (r: Option<(u64, S::Sample)>) {
        let idx: u64 = self.base;
        match self.signal.next() {
            Some(v) => {
                if self.base < u64::MAX {
                    self.base = self.base + 1;
                }
                proof {
                    if old(self).exact() {
                        assert forall|i: nat| #[trigger] self.out(i) == old(self).out(i + 1) by {
                            assert(self.signal.out(i) == old(self).signal.out(i + 1));
                            assert(enum_index(self.base, i) == enum_index(old(self).base, i + 1));
                        }
                    }
                }
                Some((idx, v))
            },
            None => {
                proof {
                    if old(self).exact() {
                        old(self).signal.lemma_stream_wf();
                        assert forall|i: nat| #[trigger] self.out(i) == old(self).out(i + 1) by {
                            assert(self.signal.out(i) == old(self).signal.out(i + 1));
                            assert(old(self).signal.out(i + 1) is None);
                        }
                    }
                }
                None
            },
        }
    }
}

/// Drains a signal sample by sample, as a plain value consumer.
#[derive(Clone, Copy, Debug)]
pub struct Iter<S> {
    /// The signal being drained.
    pub signal: S,
}

impl<S> Iter<S> where S: Signal {
    /// A consumer over `signal`.
    pub fn new(signal: S) -> (r: Iter<S>)
        ensures
            r == (Iter { signal }),
    {
        Iter { signal }
    }

    /// Produces the next sample, as the signal's own `next` does.
    pub fn next_item(&mut self) -> (r: Option<S::Sample>)
        requires
            old(self).signal.wf(),
        ensures
            final(self).signal.wf(),
            final(self).signal.rate_spec() == old(self).signal.rate_spec(),
            old(self).signal.done() ==> r is None,
            r is None ==> final(self).signal.done(),
            old(self).signal.exact() ==> r == old(self).signal.out(0),
            old(self).signal.exact() ==> final(self).signal.exact(),
            old(self).signal.exact() ==> forall|i: nat| #[trigger]
                final(self).signal.out(i) == old(self).signal.out(i + 1),
    {
        self.signal.next()
    }

    /// Collects up to `n` samples into a vector: all of them in order,
    /// or fewer exactly when the signal ends early.
    pub fn collect_n(&mut self, n: usize) -> (r: Vec<S::Sample>)
        requires
            old(self).signal.wf(),
            old(self).signal.exact(),
        ensures
            final(self).signal.wf(),
            final(self).signal.exact(),
            r@.len() <= n,
            forall|j: nat|
                j < r@.len() ==> #[trigger] old(self).signal.out(j) is Some && r@[j as int]
                    == old(self).signal.out(j).unwrap(),
            r@.len() < n ==> old(self).signal.out(r@.len() as nat) is None,
            forall|i: nat| #[trigger] final(self).signal.out(i) == old(self).signal.out(
                i + r@.len(),
            ),
    {
        let mut r: Vec<S::Sample> = Vec::new();
        loop
            invariant
                old(self).signal.wf(),
                old(self).signal.exact(),
                self.signal.wf(),
                self.signal.exact(),
                r@.len() <= n,
                forall|j: nat|
                    j < r@.len() ==> #[trigger] old(self).signal.out(j) is Some && r@[j as int]
                        == old(self).signal.out(j).unwrap(),
                forall|i: nat| #[trigger] self.signal.out(i) == old(self).signal.out(
                    i + r@.len(),
                ),
            decreases n - r@.len(),
        {
            if r.len() >= n {
                return r;
            }
            match self.signal.next() {
                Some(v) => {
                    r.push(v);
                },
                None => {
                    proof {
                        self.signal.lemma_stream_wf();
                        old(self).signal.lemma_stream_wf();
                        assert(old(self).signal.out(r@.len() as nat) is None);
                        assert forall|i: nat| #[trigger] self.signal.out(i) == old(
                            self,
                        ).signal.out(i + r@.len()) by {
                            assert(self.signal.out(i) is None);
                            assert(old(self).signal.out(i + r@.len()) is None);
                        }
                    }
                    return r;
                },
            }
        }
    }
}

/// The take/skip duration law: over an unbounded signal, skipping `k1`
/// samples and then taking `k2` yields exactly `k2` samples, and the
/// first of them is the upstream sample at index `k1`. With
/// `k1 = duration_samples(rate, d1)` and `k2 = duration_samples(rate, d2)`
/// this is the duration form: `skip(d1)` then `take(d2)` yields
/// `round(rate * d2)` samples starting at time index `round(rate * d1)`,
/// at the upstream rate.
pub proof fn lemma_skip_take_duration<S>(s: S, k1: u64, k2: u64) where S: Signal
    requires
        s.wf(),
        s.exact(),
        forall|i: nat| #[trigger] s.out(i) is Some,
    ensures
        ({
            let pipe = Take { signal: Skip { signal: s, remaining: k1 }, remaining: k2 };
            &&& forall|i: nat| i < k2 ==> #[trigger] pipe.out(i) is Some
            &&& forall|i: nat| i >= k2 ==> #[trigger] pipe.out(i) is None
            &&& (k2 > 0 ==> pipe.out(0) == s.out(k1 as nat))
            &&& pipe.rate_spec() == s.rate_spec()
        }),
{
}

/// One element of the interleaved view of a signal of sample pairs:
/// element `j` is the left half of pair `j/2` when `j` is even, and the
/// right half when `j` is odd.
pub open spec fn interleave_at<S>(s: S, j: nat) -> Option<<S::Sample as PairSample>::Half>
    where S: Signal, S::Sample: PairSample
{
    match s.out(j / 2) {
        Some(p) => Some(
            if j % 2 == 0 {
                p.left()
            } else {
                p.right()
            },
        ),
        None => None,
    }
}

/// A sample that is an ordered pair of two equal halves, such as a
/// stereo frame.
pub trait PairSample: Sized {
    type Half;

    /// The first element of the pair.
    spec fn left(self) -> Self::Half;

    /// The second element of the pair.
    spec fn right(self) -> Self::Half;

    /// The first element of the pair.
    fn fst(&self) -> (r: Self::Half)
        ensures
            r == self.left(),
    ;

    /// The second element of the pair.
    fn snd(&self) -> (r: Self::Half)
        ensures
            r == self.right(),
    ;
}

impl<A: Copy> PairSample for (A, A) {
    type Half = A;

    open spec fn left(self) -> A {
        self.0
    }

    open spec fn right(self) -> A {
        self.1
    }

    fn fst(&self) -> A {
        self.0
    }

    fn snd(&self) -> A {
        self.1
    }
}

/// Flattens a signal of sample pairs into an interleaved single-channel
/// sequence: each pair's first element is emitted on one pull and its
/// second element on the following pull.
#[derive(Clone, Copy, Debug)]
pub struct Stereo<S: Signal> {
    /// The upstream signal of pairs.
    pub signal: S,
    /// A pair whose second element is still owed.
    pub pending: Option<S::Sample>,
}

impl<S> Stereo<S> where S: Signal, S::Sample: PairSample + Copy {
    /// Interleaves the pairs of `signal`.
    pub fn new(signal: S) -> (r: Stereo<S>)
        ensures
            r.signal == signal,
            r.pending is None,
    {
        Stereo { signal, pending: None }
    }
}

impl<S> Signal for Stereo<S> where S: Signal, S::Sample: PairSample + Copy {
    type Sample = <S::Sample as PairSample>::Half;

    open spec fn rate_spec(&self) -> u32 {
        self.signal.rate_spec()
    }

    open spec fn wf(&self) -> bool {
        self.signal.wf()
    }

    open spec fn exact(&self) -> bool {
        self.signal.exact()
    }

    open spec fn out(&self, i: nat) -> Option<<S::Sample as PairSample>::Half> {
        match self.pending {
            Some(p) => if i == 0 {
                Some(p.right())
            } else {
                interleave_at(self.signal, (i - 1) as nat)
            },
            None => interleave_at(self.signal, i),
        }
    }

    open spec fn done(&self) -> bool {
        self.pending is None && self.signal.done()
    }

    proof fn lemma_stream_wf(&self) {
        self.signal.lemma_stream_wf();
        assert forall|i: nat, j: nat|
            #![trigger self.out(i), self.out(j)]
            i <= j && self.out(i) is None implies self.out(j) is None by {
            match self.pending {
                Some(p) => {
                    if i > 0 {
                        assert(self.signal.out((i - 1) as nat / 2) is None);
                        assert(self.signal.out((j - 1) as nat / 2) is None);
                    }
                },
                None => {
                    assert(self.signal.out(i / 2) is None);
                    assert(self.signal.out(j / 2) is None);
                },
            }
        }
        if self.done() {
            assert(self.signal.out(0) is None);
        }
    }

    fn rate(&self) -> u32 {
        self.signal.rate()
    }

    fn next(&mut self) -> (r: Option<<S::Sample as PairSample>::Half>) {
        match self.pending {
            Some(p) => {
                self.pending = None;
                Some(p.snd())
            },
            None => {
                match self.signal.next() {
                    Some(v) => {
                        self.pending = Some(v);
                        proof {
                            if old(self).exact() {
                                assert forall|i: nat| #[trigger] self.out(i) == old(self).out(
                                    i + 1,
                                ) by {
                                    if i > 0 {
                                        assert(self.signal.out((i - 1) as nat / 2) == old(
                                            self,
                                        ).signal.out((i - 1) as nat / 2 + 1));
                                        assert((i - 1) as nat / 2 + 1 == (i + 1) as nat / 2);
                                        assert((i - 1) as nat % 2 == (i + 1) as nat % 2);
                                    }
                                }
                            }
                        }
                        Some(v.fst())
                    },
                    None => {
                        proof {
                            if old(self).exact() {
                                old(self).signal.lemma_stream_wf();
                                assert forall|i: nat| #[trigger] self.out(i) == old(self).out(
                                    i + 1,
                                ) by {
                                    assert(self.signal.out(i / 2) == old(self).signal.out(
                                        i / 2 + 1,
                                    ));
                                    assert(old(self).signal.out(i / 2 + 1) is None);
                                    assert(old(self).signal.out((i + 1) as nat / 2) is None);
                                }
                            }
                        }
                        None
                    },
                }
            },
        }
    }
}

/// A sliding window over a signal: each pull pushes the newest sample
/// into a fixed-size buffer, drops the oldest, and yields an owned copy
/// of the whole window, oldest sample first. The copy stays valid
/// however the window moves on.
#[derive(Clone, Debug)]
pub struct Window<S: Signal> {
    /// The upstream signal.
    pub signal: S,
    /// The current window contents, oldest first.
    pub buffer: Vec<S::Sample>,
}

impl<S> Window<S> where S: Signal, S::Sample: Copy + Convolve<S::Sample> {
    /// A window of `size` samples over `signal`, seeded with additive
    /// identities. The window must hold at least one sample.
    pub fn new(signal: S, size: usize) -> (r: Window<S>)
        requires
            size >= 1,
        ensures
            r.signal == signal,
            r.buffer@ =~= Seq::new(
                size as nat,
                |i: int| <S::Sample as Convolve<S::Sample>>::zero_spec(),
            ),
            r.buffer@.len() == size,
    {
        let mut buffer: Vec<S::Sample> = Vec::new();
        while buffer.len() < size
            invariant
                buffer@.len() <= size,
                forall|i: int|
                    0 <= i < buffer@.len() ==> buffer@[i] == <S::Sample as Convolve<
                        S::Sample,
                    >>::zero_spec(),
            decreases size - buffer@.len(),
        {
            buffer.push(<S::Sample as Convolve<S::Sample>>::zero());
        }
        Window { signal, buffer }
    }
}

impl<S> Window<S> where S: Signal, S::Sample: Copy {
    /// The shared rate.
    pub fn rate(&self) -> (r: u32)
        requires
            self.signal.wf(),
        ensures
            r == self.signal.rate_spec(),
    {
        self.signal.rate()
    }

    /// Pushes the next upstream sample through the window and yields an
    /// owned copy of the new window contents, oldest sample first; ends
    /// when the upstream ends, leaving the window untouched.
    pub fn next(&mut self) -> (r: Option<Vec<S::Sample>>)
        requires
            old(self).signal.wf(),
            old(self).buffer@.len() >= 1,
        ensures
            final(self).signal.wf(),
            final(self).buffer@.len() == old(self).buffer@.len(),
            final(self).signal.rate_spec() == old(self).signal.rate_spec(),
            old(self).signal.done() ==> r is None,
            r is None ==> final(self).signal.done() && final(self).buffer == old(self).buffer,
            old(self).signal.exact() ==> final(self).signal.exact(),
            old(self).signal.exact() ==> forall|i: nat| #[trigger]
                final(self).signal.out(i) == old(self).signal.out(i + 1),
            old(self).signal.exact() ==> (match old(self).signal.out(0) {
                Some(v) => r is Some && r.unwrap()@ == old(self).buffer@.drop_first().push(v)
                    && final(self).buffer@ == old(self).buffer@.drop_first().push(v),
                None => r is None && final(self).buffer@ == old(self).buffer@,
            }),
    {
        match self.signal.next() {
            Some(v) => {
                self.buffer.remove(0);
                self.buffer.push(v);
                proof {
                    if old(self).signal.exact() {
                        assert(self.buffer@ =~= old(self).buffer@.drop_first().push(
                            old(self).signal.out(0).unwrap(),
                        ));
                    }
                }
                let mut copy: Vec<S::Sample> = Vec::new();
                let mut i: usize = 0;
                while i < self.buffer.len()
                    invariant
                        i <= self.buffer@.len(),
                        copy@ =~= self.buffer@.subrange(0, i as int),
                    decreases self.buffer@.len() - i,
                {
                    copy.push(self.buffer[i]);
                    proof {
                        assert(copy@ =~= self.buffer@.subrange(0, i + 1));
                    }
                    i = i + 1;
                }
                proof {
                    assert(copy@ =~= self.buffer@);
                }
                Some(copy)
            },
            None => None,
        }
    }
}

/// Rate invariance: every adapter that passes one sample through per
/// upstream sample — take, skip, map and filter — reports exactly its
/// upstream's rate, and keeps doing so over every pull. The tee makes
/// the same promise through its constructor and `next` contracts.
pub proof fn lemma_rate_invariance<S, F, G>(s: S, f: F, g: G, count: u64) where
    S: Signal,
    F: SampleMap<S::Sample>,
    G: FilterTrait<S::Sample>,

    ensures
        (Take { signal: s, remaining: count }).rate_spec() == s.rate_spec(),
        (Skip { signal: s, remaining: count }).rate_spec() == s.rate_spec(),
        (Mapped { signal: s, f }).rate_spec() == s.rate_spec(),
        (Filter { signal: s, filter: g }).rate_spec() == s.rate_spec(),
{
}

} // verus!
