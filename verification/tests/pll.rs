use sdr::Signal;
use sdr::filter::Filter;
use sdr::filter::FilterDesign;
use sdr::filter::simple::Identity;
use sdr::filter::pll::{PllDesign, LOCK_THRESHOLD};
use sdr::complex::{Complex, unit_phasor, AMPLITUDE};
use sdr::signal::sources::Freq;

#[test]
fn pll_locks_onto_matching_tone() {
    // a zero-frequency reference driven by a constant tone at the same
    // (zero) frequency: the first sample finds the reference phasor
    // still at zero and reports no lock; from the second sample on the
    // in-phase error is the full squared amplitude and the output is
    // sustained
    let design = PllDesign::new(0, 655, Identity, Identity, Identity);
    let mut pll = design.design(48000);
    let tone = unit_phasor(0);
    assert_eq!((tone.re, tone.im), (AMPLITUDE, 0));
    assert_eq!(pll.apply(tone), None);
    for _ in 0..50 {
        assert_eq!(pll.apply(tone), Some(0));
    }
}

#[test]
fn pll_tracks_tone_at_reference_frequency() {
    // a 1 kHz tone at 48 kHz, against a 1 kHz reference: after a short
    // settling run the lock indicator stays high and the phase
    // correction stays small
    let rate = 48000u32;
    let fq = 1000u32;
    let design = PllDesign::new(fq, 3276, Identity, Identity, Identity);
    let mut pll = design.design(rate);
    let mut tone = Freq::new(rate, fq, 0);
    let mut locked_run = 0u32;
    for n in 0..400 {
        let s = tone.next().unwrap();
        let out = pll.apply(s);
        if n >= 100 {
            match out {
                Some(hz) => {
                    locked_run += 1;
                    // the tracked correction stays below the tone
                    // frequency itself
                    assert!(hz.abs() < 1000, "correction {hz} too large at {n}");
                }
                None => panic!("lost lock at sample {n}"),
            }
        }
    }
    assert_eq!(locked_run, 300);
}

#[test]
fn pll_stays_unlocked_on_silence() {
    let design = PllDesign::new(100, 655, Identity, Identity, Identity);
    let mut pll = design.design(8000);
    for _ in 0..20 {
        assert_eq!(pll.apply(Complex { re: 0, im: 0 }), None);
    }
}

#[test]
fn lock_threshold_is_a_hundredth_of_full_scale() {
    assert_eq!(LOCK_THRESHOLD, AMPLITUDE * AMPLITUDE / 100);
}
