use subjam::default_envelope;
use subjam::midi_to_freq;
use subjam::Envelope;

#[test]
fn a4_is_440_hz() {
    let mhz = midi_to_freq(69);
    let hz = mhz as f64 / 1000.0;
    assert!((hz - 440.0).abs() < 1e-3);
}

#[test]
fn a0_is_27_5_hz() {
    assert_eq!(midi_to_freq(21), 27_500);
    let hz = midi_to_freq(21) as f64 / 1000.0;
    assert!((hz - 27.5).abs() < 1e-3);
}

#[test]
fn octave_up_doubles_frequency() {
    // A5 is twice A4, exactly representable in the fixed-point table.
    assert_eq!(midi_to_freq(81), 880_000);
    assert_eq!(midi_to_freq(33), 55_000);
}

#[test]
fn middle_c_is_close_to_reference() {
    // C4 in equal temperament is 261.6256 Hz.
    let hz = midi_to_freq(60) as f64 / 1000.0;
    assert!((hz - 261.6256).abs() < 1e-3);
}

#[test]
fn frequencies_increase_with_note_number() {
    let mut prev = midi_to_freq(0);
    for note in 1..=127u8 {
        let next = midi_to_freq(note);
        assert!(next > prev);
        prev = next;
    }
}

#[test]
fn default_envelope_values() {
    let e = default_envelope();
    assert_eq!(e.attack, 30);
    assert_eq!(e.decay, 300);
    assert_eq!(e.sustain, 1000);
    assert_eq!(e.release, 800);
}

#[test]
fn adsr_returns_fields_in_order() {
    let e = Envelope { attack: 1, decay: 2, sustain: 3, release: 4 };
    assert_eq!(e.adsr(), (1, 2, 3, 4));
}

#[test]
fn default_trait_matches_default_envelope() {
    let e: Envelope = Default::default();
    assert_eq!(e, default_envelope());
}
