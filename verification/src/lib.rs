//! Core of a polyphonic synthesizer: voice allocation, envelope automation,
//! a control/modulation bus, and generic signal-graph wiring.
//!
//! The engine itself performs no audio I/O. Every effect on the rendering
//! host (node creation, wiring, parameter automation) is returned to the
//! caller as a sequence of [`HostCmd`] values; a thin adapter outside this
//! crate replays them against the real host. Continuous quantities (gains,
//! sustain levels, frequencies, detune amounts) are carried as fixed-point
//! integers in thousandths of a unit, so `1000` stands for a gain of one
//! and `440_000` for 440 Hz.

use vstd::prelude::*;

pub mod audio;
pub mod bus;
pub mod cv;
pub mod host;
pub mod osc;
pub mod synth;
pub mod voice;

pub use audio::connect;
pub use audio::connect_to_one;
pub use audio::AudioInput;
pub use audio::AudioInputs;
pub use audio::AudioOutput;
pub use bus::EventBus;
pub use cv::Control;
pub use cv::GainControl;
pub use cv::MixControl;
pub use host::AudioGraph;
pub use host::HostCmd;
pub use host::NodeId;
pub use host::Waveform;
pub use osc::Oscillator;
pub use synth::Channel;
pub use synth::Mixer;
pub use synth::Subjam;
pub use synth::LFO;
pub use voice::Filter;
pub use voice::Voice;

verus! {

use vstd::arithmetic::power2::pow2;

/// A caller broke the usage protocol of one of the core's components.
///
/// These conditions mark bugs in the calling code, not runtime states to
/// recover from: the operation that detects one refuses to do anything,
/// and a caller should treat the error as fatal.
#[derive(Clone, Copy, PartialEq, Eq, Structural, Debug)]
pub enum ProtocolError {
    /// A control id was registered on the bus a second time.
    DuplicateControl,
    /// A note was released that was never turned on.
    NoteNotPlaying,
    /// A wiring index reached past a unit's input endpoints.
    InputIndexOutOfRange,
}

/// Scheduling pad, in milliseconds, placed before ramps so that a fresh
/// automation never races a value still settling on the host side.
pub const TIME_PADDING_MS: u64 = 3;

/// Ceiling, in hertz, of the filter-envelope detune excursion.
pub const FILTER_MAX_FREQ: u32 = 7200;

/// `2^(step/12) * 2^32`, rounded, for `step` in `0..12`.
pub open spec fn semitone_ratio(step: int) -> int {
    if step == 0 {
        4294967296
    } else if step == 1 {
        4550359342
    } else if step == 2 {
        4820937788
    } else if step == 3 {
        5107605667
    } else if step == 4 {
        5411319705
    } else if step == 5 {
        5733093519
    } else if step == 6 {
        6074001000
    } else if step == 7 {
        6435179895
    } else if step == 8 {
        6817835604
    } else if step == 9 {
        7223245206
    } else if step == 10 {
        7652761717
    } else {
        8107818609
    }
}

/// Frequency of a midi note in millihertz: `27.5 * 2^((note - 21) / 12)`
/// hertz, evaluated in fixed point. The note is first shifted up by two
/// octaves (`+ 24` semitones) so that the octave/step split needs no
/// negative numbers; the final division by `2^34` undoes the two octaves
/// and the `2^32` ratio scale.
pub open spec fn midi_freq_millis(note: int) -> int {
    let idx = note + 3;
    27500 * semitone_ratio(idx % 12) * pow2((idx / 12) as nat) / 17179869184
}

/// Equal-temperament ratio table entry for one semitone step.
fn semitone_ratio_of(step: u32) -> (r: u64)
    requires
        step < 12,
    ensures
        r == semitone_ratio(step as int),
{
    match step {
        0 => 4294967296,
        1 => 4550359342,
        2 => 4820937788,
        3 => 5107605667,
        4 => 5411319705,
        5 => 5733093519,
        6 => 6074001000,
        7 => 6435179895,
        8 => 6817835604,
        9 => 7223245206,
        10 => 7652761717,
        _ => 8107818609,
    }
}

/// Converts a midi note to a frequency in millihertz.
///
/// A midi note is an integer, generally in the range of 21 to 108; note 21
/// is A0 at exactly 27.5 Hz and note 69 is A4 at exactly 440 Hz.
pub fn midi_to_freq(note: u8) -> (r: u64)
    ensures
        r == midi_freq_millis(note as int),
        r <= 0x1000000000000,
{
    let idx: u32 = note as u32 + 3;
    let step: u32 = idx % 12;
    let oct: u32 = idx / 12;
    let ratio: u64 = semitone_ratio_of(step);
    proof {
        assert(idx <= 258);
        assert(oct <= 21);
        vstd::arithmetic::power2::lemma2_to64();
        assert(pow2(oct as nat) <= 2097152) by {
            if oct < 21 {
                vstd::arithmetic::power2::lemma_pow2_strictly_increases(oct as nat, 21nat);
            }
        }
        vstd::bits::lemma_u64_shl_is_mul(1u64, oct as u64);
    }
    let pow: u64 = 1u64 << oct;
    proof {
        assert(ratio <= 8107818609);
        assert(27500int * (ratio as int) <= 27500int * 8107818609) by (nonlinear_arith)
            requires
                ratio <= 8107818609,
        ;
    }
    let base: u128 = 27500u128 * (ratio as u128);
    proof {
        assert((base as int) * (pow as int) <= 27500int * 8107818609 * 2097152)
            by (nonlinear_arith)
            requires
                base <= 27500int * 8107818609,
                pow <= 2097152,
        ;
    }
    let scaled: u128 = base * (pow as u128);
    let out: u128 = scaled / 17179869184u128;
    proof {
        assert(out <= 0x1000000000000) by {
            vstd::arithmetic::div_mod::lemma_div_is_ordered(
                scaled as int,
                27500int * 8107818609 * 2097152,
                17179869184,
            );
        }
    }
    out as u64
}

/// The conversion's reference pitches, exactly: note 69 is A4 at 440 Hz
/// and note 21 is A0 at 27.5 Hz, in millihertz.
pub proof fn lemma_reference_pitches()
    ensures
        midi_freq_millis(69) == 440000,
        midi_freq_millis(21) == 27500,
{
    vstd::arithmetic::power2::lemma2_to64();
    assert(midi_freq_millis(69) == 27500 * 4294967296 * 64 / 17179869184);
    assert(midi_freq_millis(21) == 27500 * 4294967296 * 4 / 17179869184);
}

/// Attack/decay/sustain/release descriptor consumed by the voice
/// automation logic. Times are in milliseconds; `sustain` is a
/// fixed-point level in thousandths (1000 stands for full level) and is
/// stored as given, without clamping.
#[derive(Clone, Copy, PartialEq, Eq, Structural, Debug)]
pub struct Envelope {
    pub attack: u32,
    pub decay: u32,
    pub sustain: i64,
    pub release: u32,
}

impl Default for Envelope {
    /// 30 ms attack, 300 ms decay, full sustain, 800 ms release.
    fn default() -> (e: Envelope)
        ensures
            e == (Envelope { attack: 30u32, decay: 300u32, sustain: 1000i64, release: 800u32 }),
    {
        Envelope { attack: 30, decay: 300, sustain: 1000, release: 800 }
    }
}

/// The stock envelope shipped with a fresh oscillator bank.
pub fn default_envelope() -> (e: Envelope)
    ensures
        e == (Envelope { attack: 30u32, decay: 300u32, sustain: 1000i64, release: 800u32 }),
{
    Envelope { attack: 30, decay: 300, sustain: 1000, release: 800 }
}

impl Envelope {
    /// The four fields as one tuple, in attack/decay/sustain/release order.
    pub fn adsr(&self) -> (r: (u32, u32, i64, u32))
        ensures
            r == (self.attack, self.decay, self.sustain, self.release),
    {
        (self.attack, self.decay, self.sustain, self.release)
    }
}

} // verus!
