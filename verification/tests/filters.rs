use sdr::Signal;
use sdr::filter::Filter;
use sdr::filter::FilterDesign;
use sdr::filter::biquad::Biquad;
use sdr::filter::simple::{Identity, Monitor, CountObserver};
use sdr::filter::derivative::Derivative;
use sdr::signal::sources::{from_iter, impulse};
use sdr::signal::adapters::Filter as FilterAdapter;

#[test]
fn biquad_new_normalizes_by_a0() {
    let b: Biquad<i64, i64> = Biquad::new(2, -4, 6, 8, 10, -12);
    assert_eq!(b.b0, 4);
    assert_eq!(b.b1, 5);
    assert_eq!(b.b2, -6);
    assert_eq!(b.na1, 2);
    assert_eq!(b.na2, -3);
    assert_eq!((b.x1, b.x2, b.y1, b.y2), (0, 0, 0, 0));
}

#[test]
fn biquad_new_with_negative_leading_coefficient() {
    let b: Biquad<i64, i64> = Biquad::new(-2, 4, -6, -8, 10, 12);
    assert_eq!(b.b0, 4);
    assert_eq!(b.b1, -5);
    assert_eq!(b.b2, -6);
    assert_eq!(b.na1, 2);
    assert_eq!(b.na2, -3);
}

#[test]
fn biquad_decay_impulse_response_is_geometric() {
    // a first-order decay biquad: b0 = 5, feedback na1 = 3; the unit
    // impulse comes back as the geometric sequence 5 * 3^n
    let b: Biquad<i64, i64> = Biquad::new(1, -3, 0, 5, 0, 0);
    let mut f = b;
    assert_eq!(f.apply(1), 5);
    assert_eq!(f.apply(0), 15);
    assert_eq!(f.apply(0), 45);
    assert_eq!(f.apply(0), 135);
}

#[test]
fn biquad_impulse_through_pipeline() {
    // the same decay filter driven as a pipeline stage over the unit
    // impulse source
    let b: Biquad<i64, i64> = Biquad::new(1, -2, 0, 7, 0, 0);
    let mut pipe = FilterAdapter::new(impulse::<i64>(100), b);
    assert_eq!(pipe.rate(), 100);
    assert_eq!(pipe.next(), Some(7));
    assert_eq!(pipe.next(), Some(14));
    assert_eq!(pipe.next(), Some(28));
}

#[test]
fn biquad_general_recurrence() {
    // all five coefficients in play, checked against the recurrence
    // out = b0 x + b1 x1 + b2 x2 + na1 y1 + na2 y2 computed by hand
    let b: Biquad<i64, i64> = Biquad::new(1, -1, 2, 2, 3, 4);
    let mut f = b;
    // x=1: out = 2
    assert_eq!(f.apply(1), 2);
    // x=10: out = 2*10 + 3*1 + 1*2 = 25
    assert_eq!(f.apply(10), 25);
    // x=0: out = 3*10 + 4*1 + 1*25 - 2*2 = 55
    assert_eq!(f.apply(0), 55);
}

#[test]
fn fir_zero_padded_convolution() {
    let f: sdr::filter::fir::Fir<i64, i64> = sdr::filter::fir::Fir::new(vec![1, 2, 3]);
    let mut f = f;
    assert_eq!(f.apply(1), 1);
    assert_eq!(f.apply(2), 4);
    assert_eq!(f.apply(3), 10);
    assert_eq!(f.apply(4), 16);
}

#[test]
fn fir_linearity() {
    // FIR(a*X + b*Y) == a*FIR(X) + b*FIR(Y), sample by sample
    let coef = vec![2i64, -3, 4];
    let xs = vec![1i64, 5, -2, 7, 0, 3];
    let ys = vec![3i64, -1, 4, 2, 9, -6];
    let (a, b) = (6i64, -5i64);
    let mut fx: sdr::filter::fir::Fir<i64, i64> = sdr::filter::fir::Fir::new(coef.clone());
    let mut fy: sdr::filter::fir::Fir<i64, i64> = sdr::filter::fir::Fir::new(coef.clone());
    let mut fc: sdr::filter::fir::Fir<i64, i64> = sdr::filter::fir::Fir::new(coef.clone());
    for i in 0..xs.len() {
        let ox = fx.apply(xs[i]);
        let oy = fy.apply(ys[i]);
        let oc = fc.apply(a.wrapping_mul(xs[i]).wrapping_add(b.wrapping_mul(ys[i])));
        assert_eq!(oc, a.wrapping_mul(ox).wrapping_add(b.wrapping_mul(oy)));
    }
}

#[test]
fn fir_warmup_suppresses_transient() {
    let mut f: sdr::fir::Fir<i64, i64> = sdr::fir::Fir::new(vec![1, 2]);
    assert_eq!(f.apply(5), None);
    assert_eq!(f.apply(7), Some(19));
    assert_eq!(f.apply(9), Some(25));
}

#[test]
fn identity_passes_samples_through() {
    let mut f = Identity;
    assert_eq!(Filter::<i64>::apply(&mut f, 42), 42);
    let designed: Identity = FilterDesign::<i64>::design(Identity, 100);
    assert_eq!(designed, Identity);
}

#[test]
fn monitor_fires_every_nth_sample() {
    let mut m = Monitor::new(3, CountObserver { seen: 0 });
    for i in 0..7i64 {
        assert_eq!(m.apply(i), i);
    }
    assert_eq!(m.func.seen, 2);
}

#[test]
fn derivative_orders_and_taps() {
    let d = Derivative::Center(1, 2);
    assert_eq!(d.derivative(), 1);
    assert_eq!(d.accuracy(), 2);
    assert_eq!(d.effective_accuracy(), 2);
    assert_eq!(d.taps(), (-1, 1));

    // central accuracy rounds up to even
    let d = Derivative::Center(2, 3);
    assert_eq!(d.effective_accuracy(), 4);
    assert_eq!(d.taps(), (-2, 2));

    let d = Derivative::Forward(2, 3);
    assert_eq!(d.effective_accuracy(), 3);
    assert_eq!(d.taps(), (0, 4));

    let d = Derivative::Backward(1, 1);
    assert_eq!(d.taps(), (-1, 0));

    // an order-zero central stencil still exists once the accuracy is
    // positive: size 2*0 + 2 - 1 = 1, a single tap
    let d = Derivative::Center(0, 1);
    assert_eq!(d.effective_accuracy(), 2);
    assert_eq!(d.taps(), (0, 0));
}

#[test]
fn filter_design_resets_state() {
    let mut b: Biquad<i64, i64> = Biquad::new(1, -1, 0, 1, 0, 0);
    b.apply(4);
    b.apply(5);
    let fresh: Biquad<i64, i64> = FilterDesign::<i64>::design(b, 10);
    assert_eq!((fresh.x1, fresh.x2, fresh.y1, fresh.y2), (0, 0, 0, 0));
    let src = from_iter(10u32, vec![1i64]);
    let mut pipe = FilterAdapter::new(src, fresh);
    assert_eq!(pipe.next(), Some(1));
}
