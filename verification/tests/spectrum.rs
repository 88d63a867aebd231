use sdr::fft::{collate, positive_half};
use sdr::complex::{Complex, unit_phasor, arg_fx, fxmul, AMPLITUDE, QUARTER, HALF_TURN};
use sdr::rtltcp::{RtlTcpCommand, valid_rate, center_sample};

/// A direct discrete Fourier transform, normalized by `1/sqrt(n)`.
fn dft(samples: &[f64]) -> Vec<(f64, f64)> {
    let n = samples.len();
    let mut out = Vec::with_capacity(n);
    for k in 0..n {
        let mut re = 0.0f64;
        let mut im = 0.0f64;
        for (j, &x) in samples.iter().enumerate() {
            let ang = -2.0 * std::f64::consts::PI * (k as f64) * (j as f64) / (n as f64);
            re += x * ang.cos();
            im += x * ang.sin();
        }
        let norm = 1.0 / (n as f64).sqrt();
        out.push((re * norm, im * norm));
    }
    out
}

#[test]
fn cosine_energy_concentrates_in_its_bin() {
    // eight samples of a pure cosine at one eighth of the rate: the
    // positive-frequency half of the collated spectrum puts more than
    // ninety percent of its energy in the bin one step above zero
    let rate = 8.0f64;
    let n = 8usize;
    let samples: Vec<f64> = (0..n)
        .map(|j| (2.0 * std::f64::consts::PI * (j as f64) / 8.0).cos())
        .collect();
    let spectrum = dft(&samples);
    let collated = collate(spectrum);
    assert_eq!(collated.len(), n);
    // bins are labeled by signed offset from zero frequency
    assert_eq!(collated[0].0, -4);
    assert_eq!(collated[4].0, 0);
    let half = positive_half(collated);
    assert_eq!(half.len(), 4);
    let energy: Vec<f64> = half
        .iter()
        .map(|(_, (re, im))| re * re + im * im)
        .collect();
    let total: f64 = energy.iter().sum();
    let peak_bin = half[1].0;
    // frequency of the peak bin: offset * rate / n == 1 Hz
    assert_eq!(peak_bin, 1);
    assert!(energy[1] / total > 0.9, "peak share {}", energy[1] / total);
}

#[test]
fn collate_centers_the_zero_bin() {
    let v: Vec<i64> = vec![10, 11, 12, 13, 14, 15];
    let c = collate(v);
    // source order is rotated so that the most negative frequency
    // comes first and the old bin 0 lands in the middle
    let labels: Vec<i64> = c.iter().map(|p| p.0).collect();
    let values: Vec<i64> = c.iter().map(|p| p.1).collect();
    assert_eq!(labels, vec![-3, -2, -1, 0, 1, 2]);
    assert_eq!(values, vec![13, 14, 15, 10, 11, 12]);
}

#[test]
fn command_frames_are_big_endian() {
    let f = RtlTcpCommand::SetFrequency(100_000_000).frame();
    assert_eq!(f, vec![0x01, 0x05, 0xF5, 0xE1, 0x00]);
    let f = RtlTcpCommand::SetSampleRate(1_800_000).frame();
    assert_eq!(f, vec![0x02, 0x00, 0x1B, 0x77, 0x40]);
    assert_eq!(RtlTcpCommand::SetTunerGainMode(1).encode(), (0x03, 1));
    assert_eq!(RtlTcpCommand::SetTunerGain(105).encode(), (0x04, 105));
    assert_eq!(RtlTcpCommand::SetRtlAgc(1).encode(), (0x08, 1));
}

#[test]
fn tuner_rate_bands() {
    assert!(valid_rate(1_800_000));
    assert!(valid_rate(225_001));
    assert!(valid_rate(300_000));
    assert!(valid_rate(3_200_000));
    assert!(!valid_rate(225_000));
    assert!(!valid_rate(500_000));
    assert!(!valid_rate(3_200_001));
}

#[test]
fn raw_samples_center_at_zero() {
    assert_eq!(center_sample(128), 0);
    assert_eq!(center_sample(0), -16384);
    assert_eq!(center_sample(255), 16256);
}

#[test]
fn complex_ring_operations() {
    let a = Complex { re: 3, im: 4 };
    let b = Complex { re: -2, im: 5 };
    let p = a.mul_c(b);
    assert_eq!((p.re, p.im), (3 * -2 - 4 * 5, 3 * 5 + 4 * -2));
    let c = a.conj();
    assert_eq!((c.re, c.im), (3, -4));
    // a number times its own conjugate is the squared magnitude
    let m = a.mul_c(a.conj());
    assert_eq!((m.re, m.im), (25, 0));
}

#[test]
fn phasor_and_argument_agree_on_the_axes() {
    let p = unit_phasor(0);
    assert_eq!((p.re, p.im), (AMPLITUDE, 0));
    let p = unit_phasor(QUARTER);
    assert_eq!((p.re, p.im), (0, AMPLITUDE));
    assert_eq!(arg_fx(Complex { re: 9, im: 0 }), 0);
    assert_eq!(arg_fx(Complex { re: 0, im: 9 }), QUARTER);
    assert_eq!(arg_fx(Complex { re: -9, im: 0 }), HALF_TURN);
    assert_eq!(arg_fx(Complex { re: 0, im: -9 }), -QUARTER);
    assert_eq!(arg_fx(Complex { re: 0, im: 0 }), 0);
}

#[test]
fn fixed_point_gain_scaling() {
    assert_eq!(fxmul(65536, 65536), 65536);
    assert_eq!(fxmul(32768, 65536), 32768);
    assert_eq!(fxmul(-65536, 32768), -32768);
    assert_eq!(fxmul(655, 65536), 655);
    assert_eq!(fxmul(100, 100), 0);
}
