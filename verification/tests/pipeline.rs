use sdr::Signal;
use sdr::duration_samples;
use sdr::signal::sources::{from_iter, constant, one, zero, impulse, Freq};
use sdr::signal::adapters::{Take, Skip, Mapped, Scale, Decimate, Enumerate, Iter, Stereo, Window};
use sdr::signal::times::Times;
use sdr::signal::sources::FreqSweep;
use sdr::signal::adapters::RealPart;
use sdr::complex::Complex;

#[test]
fn duration_rounding() {
    assert_eq!(duration_samples(1000, 1500), 1500);
    assert_eq!(duration_samples(44100, 1), 44);
    // half a sample rounds up
    assert_eq!(duration_samples(500, 1), 1);
    assert_eq!(duration_samples(0, 1000), 0);
}

#[test]
fn take_yields_exactly_count() {
    let src = constant(1000u32, 7i64);
    let mut t = Take::new(src, 5);
    let mut seen = 0u64;
    while let Some(v) = t.next() {
        assert_eq!(v, 7);
        seen += 1;
    }
    assert_eq!(seen, 5);
    assert_eq!(t.next(), None);
}

#[test]
fn skip_take_duration_law() {
    // an unbounded index signal: skip(d1).take(d2) yields exactly
    // round(rate*d2) samples and starts at index round(rate*d1)
    let rate = 1000u32;
    let d1 = duration_samples(rate, 1500);
    let d2 = duration_samples(rate, 2500);
    let src = Times::new(rate);
    let sk = Skip::new(src, d1);
    let tk = Take::new(sk, d2);
    assert_eq!(tk.rate(), rate);
    let mut it = Iter::new(tk);
    let got = it.collect_n(10000);
    assert_eq!(got.len(), 2500);
    assert_eq!(got[0], 1500);
    assert_eq!(got[2499], 1500 + 2499);
}

#[test]
fn skip_ending_mid_skip_yields_nothing() {
    let src = from_iter(100u32, vec![1i64, 2, 3]);
    let mut sk = Skip::new(src, 5);
    assert_eq!(sk.next(), None);
    assert_eq!(sk.next(), None);
}

#[test]
fn rate_is_preserved_by_adapters() {
    let rate = 48000u32;
    let src = from_iter(rate, vec![1i64, 2, 3, 4]);
    assert_eq!(Mapped::new(src.clone(), Scale { factor: 2 }).rate(), rate);
    assert_eq!(Take::new(src.clone(), 2).rate(), rate);
    assert_eq!(Skip::new(src.clone(), 2).rate(), rate);
    assert_eq!(Enumerate::new(src.clone()).rate(), rate);
}

#[test]
fn mapped_scales_every_sample() {
    let src = from_iter(10u32, vec![1i64, 2, 3]);
    let mut m = Mapped::new(src, Scale { factor: 5 });
    assert_eq!(m.next(), Some(5));
    assert_eq!(m.next(), Some(10));
    assert_eq!(m.next(), Some(15));
    assert_eq!(m.next(), None);
}

#[test]
fn decimate_keeps_every_nth() {
    let src = from_iter(9u32, vec![0i64, 1, 2, 3, 4, 5, 6, 7, 8, 9]);
    let mut d = Decimate::new(src, 3);
    // the nominal rate is rate / factor
    assert_eq!(d.rate(), 3);
    assert_eq!(d.next(), Some(2));
    assert_eq!(d.next(), Some(5));
    assert_eq!(d.next(), Some(8));
    assert_eq!(d.next(), None);
}

#[test]
fn enumerate_pairs_with_index() {
    let src = from_iter(10u32, vec![7i64, 8]);
    let mut e = Enumerate::new(src);
    assert_eq!(e.next(), Some((0, 7)));
    assert_eq!(e.next(), Some((1, 8)));
    assert_eq!(e.next(), None);
}

#[test]
fn times_counts_up() {
    let mut t = Times::new(44100);
    assert_eq!(t.next(), Some(0));
    assert_eq!(t.next(), Some(1));
    assert_eq!(t.next(), Some(2));
    assert_eq!(t.rate(), 44100);
}

#[test]
fn sources_produce_identities() {
    let mut o = one::<i64>(10);
    let mut z = zero::<i64>(10);
    assert_eq!(o.next(), Some(1));
    assert_eq!(z.next(), Some(0));
    let mut imp = impulse::<i64>(10);
    assert_eq!(imp.next(), Some(1));
    assert_eq!(imp.next(), Some(0));
    assert_eq!(imp.next(), Some(0));
}

#[test]
fn stereo_interleaves_pairs() {
    let src = from_iter(10u32, vec![(1i64, 2i64), (3, 4)]);
    let mut st = Stereo::new(src);
    assert_eq!(st.next(), Some(1));
    assert_eq!(st.next(), Some(2));
    assert_eq!(st.next(), Some(3));
    assert_eq!(st.next(), Some(4));
    assert_eq!(st.next(), None);
}

#[test]
fn window_slides_over_signal() {
    let src = from_iter(10u32, vec![1i64, 2, 3, 4]);
    let mut w = Window::new(src, 3);
    assert_eq!(w.next(), Some(vec![0, 0, 1]));
    assert_eq!(w.next(), Some(vec![0, 1, 2]));
    assert_eq!(w.next(), Some(vec![1, 2, 3]));
    assert_eq!(w.next(), Some(vec![2, 3, 4]));
    assert_eq!(w.next(), None);
}

#[test]
fn freq_advances_phase_per_sample() {
    // one eighth of the rate: the phase advances an eighth turn per
    // sample on the triangle-wave circle of amplitude 16384
    let mut f = Freq::new(8, 1, 0);
    assert_eq!(f.step, 1i64 << 29);
    let s1 = f.next().unwrap();
    assert_eq!((s1.re, s1.im), (8192, 8192));
    let s2 = f.next().unwrap();
    assert_eq!((s2.re, s2.im), (0, 16384));
}

#[test]
fn iter_collects_from_infinite_signal() {
    let src = constant(10u32, 3i64);
    let mut it = Iter::new(src);
    let got = it.collect_n(4);
    assert_eq!(got, vec![3, 3, 3, 3]);
}

#[test]
fn freq_sweep_moves_and_ends() {
    // frequency 2 Hz at 16 samples/s, rising 1 Hz per sample after a
    // two-sample warm-up, for five samples in all
    let fx = 65536i64;
    let mut sw = FreqSweep::new(16, 2 * fx, fx, 0, 2, 4, Some(5));
    let (f1, _) = sw.next().unwrap();
    assert_eq!(f1, 2 * fx);
    let (f2, _) = sw.next().unwrap();
    assert_eq!(f2, 2 * fx);
    // the warm-up is over: the frequency climbs while the window lasts
    let (f3, _) = sw.next().unwrap();
    assert_eq!(f3, 3 * fx);
    let (f4, _) = sw.next().unwrap();
    assert_eq!(f4, 4 * fx);
    // the sweep window is spent: the frequency holds
    let (f5, _) = sw.next().unwrap();
    assert_eq!(f5, 4 * fx);
    // and the length is spent: permanent end of stream
    assert_eq!(sw.next(), None);
    assert_eq!(sw.next(), None);
}

#[test]
fn decimate_toward_rate_rounds_the_stride() {
    // 9 samples/s toward 2 samples/s: the stride rounds to 5 (9/2 = 4.5,
    // half rounds up), so the achieved rate is 9/5, not the request
    let src = from_iter(9u32, vec![0i64, 1, 2, 3, 4, 5, 6, 7, 8, 9]);
    let mut d = Decimate::toward_rate(src, 2);
    // the reported rate is the requested target, a documented
    // approximation of the achieved 9/5
    assert_eq!(d.rate(), 2);
    assert_eq!(d.next(), Some(4));
    assert_eq!(d.next(), Some(9));
    assert_eq!(d.next(), None);
}

#[test]
fn mapped_real_part_of_complex() {
    let src = from_iter(
        10u32,
        vec![Complex { re: 3, im: 9 }, Complex { re: -4, im: 1 }],
    );
    let mut m = Mapped::new(src, RealPart);
    assert_eq!(m.next(), Some(3));
    assert_eq!(m.next(), Some(-4));
    assert_eq!(m.next(), None);
}
