//! Polyphonic note dispatch: a fixed pool of voices, a record of which
//! voice sounds which note, and the round-robin allocation policy with
//! voice stealing under overflow.
//!
//! The pool is indexed by voice: `playing()[v]` is the note voice `v`
//! currently sounds, if any. A note therefore maps to at most one voice
//! and a voice to at most one note by construction; when a voice is
//! stolen, the dispossessed note simply ceases to be held, so releasing
//! it later fails fatally rather than silencing the thief.

use vstd::prelude::*;

use crate::audio::AudioOutput;
use crate::host::AudioGraph;
use crate::host::HostCmd;
use crate::host::NodeId;
use crate::host::ParamAddr;
use crate::host::ParamKind;
use crate::host::Waveform;
use crate::midi_freq_millis;
use crate::midi_to_freq;
use crate::voice::amp_end_cmds;
use crate::voice::amp_start_cmds;
use crate::voice::filter_end_cmds;
use crate::voice::filter_start_cmds;
use crate::voice::set_freq_cmds;
use crate::voice::voice_setup_cmds;
use crate::voice::Voice;
use crate::Envelope;
use crate::ProtocolError;

verus! {

/// Wraps an index that advanced past the end of a pool of size `len`
/// back to the front; defined for positions below `2 * len`.
pub open spec fn wrap(i: int, len: int) -> int {
    if i >= len {
        i - len
    } else {
        i
    }
}

/// A free voice sits `k` cyclic steps ahead of `idx`.
pub open spec fn free_slot(notes: Seq<Option<u8>>, idx: int, k: int) -> bool {
    notes[wrap(idx + k, notes.len() as int)] is None
}

/// The index the round-robin scan settles on: from `idx`, keep advancing
/// cyclically past occupied voices, for at most `fuel` steps.
pub open spec fn scan_free(notes: Seq<Option<u8>>, idx: int, fuel: nat) -> int
    decreases fuel,
{
    if fuel == 0 {
        idx
    } else if notes[idx] is None {
        idx
    } else {
        scan_free(
            notes,
            if idx + 1 >= notes.len() {
                0int
            } else {
                idx + 1
            },
            (fuel - 1) as nat,
        )
    }
}

/// When some voice within reach is free, the scan lands on a free voice.
pub proof fn lemma_scan_free_finds(notes: Seq<Option<u8>>, idx: int, fuel: nat)
    requires
        notes.len() >= 1,
        0 <= idx < notes.len(),
        fuel <= notes.len(),
        exists|k: int| 0 <= k < fuel && #[trigger] free_slot(notes, idx, k),
    ensures
        0 <= scan_free(notes, idx, fuel) < notes.len(),
        notes[scan_free(notes, idx, fuel)] is None,
    decreases fuel,
{
    let len = notes.len() as int;
    if notes[idx] is None {
    } else {
        let k = choose|k: int| 0 <= k < fuel && #[trigger] free_slot(notes, idx, k);
        assert(k != 0) by {
            assert(wrap(idx + 0, len) == idx);
        }
        let next = if idx + 1 >= len {
            0int
        } else {
            idx + 1
        };
        assert(wrap(next + (k - 1), len) == wrap(idx + k, len));
        assert(free_slot(notes, next, k - 1));
        lemma_scan_free_finds(notes, next, (fuel - 1) as nat);
    }
}

/// With every voice occupied, the scan walks `fuel` steps and ends where
/// that walk lands; a full circle ends exactly where it began.
pub proof fn lemma_scan_free_all_busy(notes: Seq<Option<u8>>, idx: int, fuel: nat)
    requires
        notes.len() >= 1,
        0 <= idx < notes.len(),
        fuel <= notes.len(),
        forall|i: int| 0 <= i < notes.len() ==> !((#[trigger] notes[i]) is None),
    ensures
        scan_free(notes, idx, fuel) == wrap(idx + fuel, notes.len() as int),
    decreases fuel,
{
    let len = notes.len() as int;
    if fuel == 0 {
        assert(wrap(idx, len) == idx);
    } else {
        let next = if idx + 1 >= len {
            0int
        } else {
            idx + 1
        };
        lemma_scan_free_all_busy(notes, next, (fuel - 1) as nat);
        assert(wrap(next + (fuel - 1), len) == wrap(idx + fuel, len));
    }
}

/// The notes sequence with every occurrence of `note` released.
pub open spec fn clear_note(notes: Seq<Option<u8>>, note: u8) -> Seq<Option<u8>> {
    notes.map_values(
        |x: Option<u8>| if x == Some(note) {
            None::<u8>
        } else {
            x
        },
    )
}

/// Start commands for every voice of a pool, in pool order.
pub open spec fn all_start_cmds(voices: Seq<Voice>) -> Seq<HostCmd>
    decreases voices.len(),
{
    if voices.len() == 0 {
        Seq::empty()
    } else {
        all_start_cmds(voices.drop_last()) + Seq::new(
            voices.last().oscs@.len(),
            |i: int| HostCmd::Start { node: voices.last().oscs@[i] },
        )
    }
}

/// Stop commands for every voice of a pool, in pool order.
pub open spec fn all_stop_cmds(voices: Seq<Voice>) -> Seq<HostCmd>
    decreases voices.len(),
{
    if voices.len() == 0 {
        Seq::empty()
    } else {
        all_stop_cmds(voices.drop_last()) + Seq::new(
            voices.last().oscs@.len(),
            |i: int| HostCmd::Stop { node: voices.last().oscs@[i] },
        )
    }
}

/// Waveform commands for every oscillator of every voice, in pool order.
pub open spec fn all_waveform_cmds(voices: Seq<Voice>, w: Waveform) -> Seq<HostCmd>
    decreases voices.len(),
{
    if voices.len() == 0 {
        Seq::empty()
    } else {
        all_waveform_cmds(voices.drop_last(), w) + Seq::new(
            voices.last().oscs@.len(),
            |i: int| HostCmd::SetWaveform { node: voices.last().oscs@[i], waveform: w },
        )
    }
}

/// Creation and wiring commands for a whole pool: each voice's own setup
/// followed by the wire from its gain stage into the shared output.
pub open spec fn voices_setup_cmds(voices: Seq<Voice>, amp: NodeId) -> Seq<HostCmd>
    decreases voices.len(),
{
    if voices.len() == 0 {
        Seq::empty()
    } else {
        voices_setup_cmds(voices.drop_last(), amp) + voice_setup_cmds(
            voices.last().filter,
            voices.last().gain,
            voices.last().oscs@,
        ) + seq![HostCmd::Connect { from: voices.last().gain, to: amp }]
    }
}

/// Everything a note start schedules on its voice: retune, amplitude
/// onset, filter onset.
pub open spec fn note_on_cmds(
    v: Voice,
    amp_env: Envelope,
    filter_env: Envelope,
    gain: i64,
    filter_frequency: u32,
    note: u8,
    velocity: u8,
) -> Seq<HostCmd> {
    set_freq_cmds(v.oscs@, midi_freq_millis(note as int) as u64) + amp_start_cmds(
        v.gain,
        amp_env,
        gain,
        velocity,
        v.unison as int,
    ) + filter_start_cmds(v.filter, filter_env, filter_frequency)
}

/// Everything a note release schedules on its voice: amplitude release,
/// filter release.
pub open spec fn note_off_cmds(
    v: Voice,
    amp_env: Envelope,
    filter_env: Envelope,
    filter_frequency: u32,
) -> Seq<HostCmd> {
    amp_end_cmds(v.gain, amp_env) + filter_end_cmds(v.filter, filter_env, filter_frequency)
}

/// A gain clamped to the unit range: levels above one thousand saturate
/// at full, levels below zero at silence, anything between passes as is.
pub open spec fn clamped_gain(g: int) -> int {
    if g > 1000 {
        1000int
    } else if g < 0 {
        0int
    } else {
        g
    }
}

/// Immediate cutoff moves for every voice of a pool, in pool order.
pub open spec fn set_filter_freq_cmds(voices: Seq<Voice>, f: u32) -> Seq<HostCmd> {
    Seq::new(
        voices.len(),
        |i: int| HostCmd::SetValue {
            param: ParamAddr { node: voices[i].filter, param: ParamKind::Frequency },
            value: (f * 1000) as i64,
            at_ms: 0,
        },
    )
}

/// Immediate resonance moves for every voice of a pool, in pool order.
pub open spec fn set_filter_res_cmds(voices: Seq<Voice>, q: i64) -> Seq<HostCmd> {
    Seq::new(
        voices.len(),
        |i: int| HostCmd::SetValue {
            param: ParamAddr { node: voices[i].filter, param: ParamKind::QFactor },
            value: q,
            at_ms: 0,
        },
    )
}

/// Everything a fresh pool asks of the host: the shared gain stage, each
/// voice's setup and wire, then a sine waveform everywhere.
pub open spec fn oscillator_setup_cmds(o: Oscillator) -> Seq<HostCmd> {
    seq![HostCmd::CreateGain { node: o.amp_view() }] + voices_setup_cmds(
        o.voices_view(),
        o.amp_view(),
    ) + all_waveform_cmds(o.voices_view(), Waveform::Sine)
}

/// A fixed pool of voices and the policy that maps note events onto it.
pub struct Oscillator {
    /// The voice pool, indexed by voice number.
    pub voices: Vec<Voice>,
    /// The note each voice currently sounds, indexed by voice number.
    pub notes: Vec<Option<u8>>,
    /// The most recently allocated voice, if any.
    pub last_voice: Option<usize>,
    /// Envelope applied to each voice's amplitude.
    pub amp_env: Envelope,
    /// Envelope applied to each voice's filter cutoff.
    pub filter_env: Envelope,
    /// Waveform every voice currently uses.
    pub osc_type: Waveform,
    /// Number of voices in the pool.
    pub polyphony: usize,
    /// Base filter cutoff in hertz.
    pub filter_frequency: u32,
    /// Filter resonance in thousandths.
    pub filter_resonance: i64,
    /// The shared output gain node the pool feeds.
    pub amp: NodeId,
    /// Configured output gain in thousandths, kept in the unit range.
    pub gain: i64,
}

impl Oscillator {
    /// The note each voice currently sounds, indexed by voice.
    pub open spec fn playing(self) -> Seq<Option<u8>> {
        self.notes@
    }

    /// The voice pool.
    pub open spec fn voices_view(self) -> Seq<Voice> {
        self.voices@
    }

    /// The most recently allocated voice, if any note started yet.
    pub open spec fn last_voice_view(self) -> Option<usize> {
        self.last_voice
    }

    /// The configured output gain in thousandths, always within the unit
    /// range.
    pub open spec fn gain_view(self) -> i64 {
        self.gain
    }

    /// The shared output gain node the whole pool feeds.
    pub open spec fn amp_view(self) -> NodeId {
        self.amp
    }

    /// Structural soundness: pool sizes line up, every voice is sound,
    /// the gain sits in the unit range, the round-robin cursor is in
    /// bounds, and no two voices sound the same note.
    pub open spec fn wf(self) -> bool {
        &&& self.polyphony >= 1
        &&& self.voices@.len() == self.polyphony
        &&& self.notes@.len() == self.polyphony
        &&& forall|i: int| 0 <= i < self.voices@.len() ==> (#[trigger] self.voices@[i]).wf()
        &&& 0 <= self.gain <= 1000
        &&& match self.last_voice {
            Some(v) => v < self.polyphony,
            None => true,
        }
        &&& forall|i: int, j: int|
            0 <= i < self.notes@.len() && 0 <= j < self.notes@.len() && (#[trigger] self.notes@[i])
                is Some && self.notes@[i] == #[trigger] self.notes@[j] ==> i == j
    }

    /// Where the round-robin scan starts: one past the last allocation,
    /// wrapped, or the first voice before any allocation.
    pub open spec fn start_index(self) -> int {
        match self.last_voice_view() {
            None => 0int,
            Some(v) => if v + 1 >= self.polyphony {
                0int
            } else {
                v + 1
            },
        }
    }

    /// The voice the allocation policy picks in the current state.
    pub open spec fn chosen_voice(self) -> int {
        scan_free(self.playing(), self.start_index(), self.playing().len() as nat)
    }

    /// Whether voice `idx` sounds no note right now.
    pub fn is_voice_free(&self, idx: usize) -> (r: bool)
        requires
            idx < self.playing().len(),
        ensures
            r == (self.playing()[idx as int] is None),
    {
        self.notes[idx].is_none()
    }

    /// Picks the voice for the next note: the first free voice at or
    /// after the round-robin cursor, or — with every voice held — the
    /// cursor position itself, stealing whatever sounds there.
    pub fn get_voice(&self) -> (r: usize)
        requires
            self.wf(),
        ensures
            r as int == self.chosen_voice(),
            r < self.polyphony,
    {
        let ghost notes = self.playing();
        let poly = self.polyphony;
        let mut voice: usize = match self.last_voice {
            None => 0,
            Some(v) => v + 1,
        };
        if voice > poly - 1 {
            voice = 0;
        }
        assert(voice as int == self.start_index());
        let mut t: usize = 0;
        while t < poly
            invariant
                self.wf(),
                notes == self.playing(),
                poly == self.polyphony,
                t <= poly,
                0 <= voice < poly,
                scan_free(notes, self.start_index(), poly as nat) == scan_free(
                    notes,
                    voice as int,
                    (poly - t) as nat,
                ),
            decreases poly - t,
        {
            if !self.is_voice_free(voice) {
                voice = voice + 1;
                if voice > poly - 1 {
                    voice = 0;
                }
            }
            t = t + 1;
        }
        voice
    }

    /// Starts a note: allocates a voice, records the mapping (replacing
    /// any earlier mapping of the same note), retunes the voice, and
    /// schedules both envelope onsets on it. With the pool exhausted the
    /// chosen voice is stolen: its old note is dropped from the record.
    pub fn note_on(&mut self, note: u8, velocity: u8) -> (cmds: Vec<HostCmd>)
        requires
            old(self).wf(),
            -2000000 <= old(self).filter_env.sustain <= 2000000,
        ensures
            final(self).wf(),
            *final(self) == (Oscillator {
                notes: final(self).notes,
                last_voice: Some(old(self).chosen_voice() as usize),
                ..*old(self)
            }),
            final(self).last_voice_view() == Some(old(self).chosen_voice() as usize),
            final(self).playing() == clear_note(old(self).playing(), note).update(
                old(self).chosen_voice(),
                Some(note),
            ),
            final(self).voices_view() == old(self).voices_view(),
            final(self).amp_env == old(self).amp_env,
            final(self).filter_env == old(self).filter_env,
            final(self).osc_type == old(self).osc_type,
            final(self).polyphony == old(self).polyphony,
            final(self).filter_frequency == old(self).filter_frequency,
            final(self).filter_resonance == old(self).filter_resonance,
            final(self).gain_view() == old(self).gain_view(),
            final(self).amp_view() == old(self).amp_view(),
            cmds@ == note_on_cmds(
                old(self).voices_view()[old(self).chosen_voice()],
                old(self).amp_env,
                old(self).filter_env,
                old(self).gain_view(),
                old(self).filter_frequency,
                note,
                velocity,
            ),
    {
        let current_voice = self.get_voice();
        self.last_voice = Some(current_voice);
        let ghost notes_pre = self.notes@;
        let mut i: usize = 0;
        while i < self.notes.len()
            invariant
                old(self).wf(),
                *self == (Oscillator {
                    notes: self.notes,
                    last_voice: Some(current_voice),
                    ..*old(self)
                }),
                i <= self.notes@.len(),
                self.notes@.len() == notes_pre.len(),
                notes_pre == old(self).notes@,
                forall|k: int| 0 <= k < i ==> self.notes@[k] == clear_note(notes_pre, note)[k],
                forall|k: int| i <= k < notes_pre.len() ==> self.notes@[k] == notes_pre[k],
            decreases self.notes@.len() - i,
        {
            let hit = match self.notes[i] {
                Some(n) => n == note,
                None => false,
            };
            if hit {
                let ghost pre = self.notes@;
                let _ = self.notes.remove(i);
                self.notes.insert(i, None);
                proof {
                    assert(self.notes@ =~= pre.update(i as int, None::<u8>));
                }
            }
            i = i + 1;
        }
        proof {
            assert(self.notes@ =~= clear_note(notes_pre, note));
        }
        let ghost cleared = self.notes@;
        let _ = self.notes.remove(current_voice);
        self.notes.insert(current_voice, Some(note));
        proof {
            assert(self.notes@ =~= cleared.update(current_voice as int, Some(note)));
        }
        let freq = midi_to_freq(note);
        proof {
            assert(self.voices@.len() == old(self).polyphony);
            assert(old(self).voices_view()[current_voice as int].wf());
            assert((velocity as int) * (self.gain as int) <= 255 * 1000) by (nonlinear_arith)
                requires
                    velocity <= 255,
                    0 <= self.gain <= 1000,
            ;
        }
        let v = &self.voices[current_voice];
        let mut cmds = v.set_freq(freq);
        let mut amp_cmds = v.amp_envelope_start(&self.amp_env, self.gain, velocity);
        cmds.append(&mut amp_cmds);
        let mut filter_cmds = v.filter_envelope_start(&self.filter_env, self.filter_frequency);
        cmds.append(&mut filter_cmds);
        proof {
            assert(cmds@ =~= note_on_cmds(
                old(self).voices_view()[old(self).chosen_voice()],
                old(self).amp_env,
                old(self).filter_env,
                old(self).gain_view(),
                old(self).filter_frequency,
                note,
                velocity,
            ));
        }
        cmds
    }

    /// Releases a note: schedules both envelope releases on its voice and
    /// frees the voice. Releasing a note that is not held — never started,
    /// already released, or dispossessed by stealing — is a caller
    /// protocol violation: the call refuses fatally and changes nothing.
    pub fn note_off(&mut self, note: u8) -> (r: Result<Vec<HostCmd>, ProtocolError>)
        requires
            old(self).wf(),
        ensures
            final(self).wf(),
            r is Ok <==> exists|i: int|
                0 <= i < old(self).playing().len() && old(self).playing()[i] == Some(note),
            r is Err ==> r == Err::<Vec<HostCmd>, ProtocolError>(ProtocolError::NoteNotPlaying)
                && *final(self) == *old(self),
            r matches Ok(cmds) ==> {
                let i = choose|i: int|
                    0 <= i < old(self).playing().len() && old(self).playing()[i] == Some(note);
                &&& final(self).playing() == old(self).playing().update(i, None::<u8>)
                &&& cmds@ == note_off_cmds(
                    old(self).voices_view()[i],
                    old(self).amp_env,
                    old(self).filter_env,
                    old(self).filter_frequency,
                )
                &&& final(self).voices_view() == old(self).voices_view()
                &&& final(self).last_voice_view() == old(self).last_voice_view()
                &&& final(self).amp_env == old(self).amp_env
                &&& final(self).filter_env == old(self).filter_env
                &&& final(self).osc_type == old(self).osc_type
                &&& final(self).polyphony == old(self).polyphony
                &&& final(self).filter_frequency == old(self).filter_frequency
                &&& final(self).filter_resonance == old(self).filter_resonance
                &&& final(self).gain_view() == old(self).gain_view()
                &&& final(self).amp_view() == old(self).amp_view()
            },
    {
        let mut i: usize = 0;
        while i < self.notes.len()
            invariant
                old(self).wf(),
                *self == *old(self),
                i <= self.notes@.len(),
                forall|k: int| 0 <= k < i ==> self.notes@[k] != Some(note),
            decreases self.notes@.len() - i,
        {
            let hit = match self.notes[i] {
                Some(n) => n == note,
                None => false,
            };
            if hit {
                let v = &self.voices[i];
                let mut cmds = v.amp_envelope_end(&self.amp_env);
                let mut filter_cmds = v.filter_envelope_end(&self.filter_env, self.filter_frequency);
                cmds.append(&mut filter_cmds);
                let ghost pre = self.notes@;
                let _ = self.notes.remove(i);
                self.notes.insert(i, None);
                proof {
                    assert(self.notes@ =~= pre.update(i as int, None::<u8>));
                    let w = choose|w: int|
                        0 <= w < old(self).playing().len() && old(self).playing()[w] == Some(note);
                    assert(old(self).playing()[i as int] == Some(note));
                    assert(w == i);
                    assert(cmds@ =~= note_off_cmds(
                        old(self).voices_view()[i as int],
                        old(self).amp_env,
                        old(self).filter_env,
                        old(self).filter_frequency,
                    ));
                }
                return Ok(cmds);
            }
            i = i + 1;
        }
        Err(ProtocolError::NoteNotPlaying)
    }

    /// Applies a waveform to every voice and remembers it.
    pub fn set_waveform(&mut self, waveform: Waveform) -> (cmds: Vec<HostCmd>)
        ensures
            final(self).osc_type == waveform,
            *final(self) == (Oscillator { osc_type: waveform, ..*old(self) }),
            cmds@ == all_waveform_cmds(final(self).voices_view(), waveform),
    {
        self.osc_type = waveform;
        let mut cmds: Vec<HostCmd> = Vec::new();
        let mut i: usize = 0;
        while i < self.voices.len()
            invariant
                i <= self.voices@.len(),
                *self == (Oscillator { osc_type: waveform, ..*old(self) }),
                cmds@ == all_waveform_cmds(self.voices@.take(i as int), waveform),
            decreases self.voices@.len() - i,
        {
            let mut vc = self.voices[i].set_waveform(waveform);
            cmds.append(&mut vc);
            i = i + 1;
            proof {
                assert(self.voices@.take(i as int).drop_last() =~= self.voices@.take(i - 1));
                assert(cmds@ =~= all_waveform_cmds(self.voices@.take(i as int), waveform));
            }
        }
        proof {
            assert(self.voices@.take(self.voices@.len() as int) =~= self.voices@);
        }
        cmds
    }

    /// Sets the pool's output gain, saturating into the unit range:
    /// anything above full scale becomes full scale, anything below
    /// silence becomes silence, and in-range values are kept exactly.
    pub fn set_gain(&mut self, g: i64)
        ensures
            final(self).gain_view() == clamped_gain(g as int),
            *final(self) == (Oscillator { gain: final(self).gain, ..*old(self) }),
    {
        let gain: i64 = if g > 1000 {
            1000
        } else if g < 0 {
            0
        } else {
            g
        };
        self.gain = gain;
    }

    /// Starts continuous generation on every oscillator of every voice.
    pub fn on(&self) -> (cmds: Vec<HostCmd>)
        ensures
            cmds@ == all_start_cmds(self.voices_view()),
    {
        let mut cmds: Vec<HostCmd> = Vec::new();
        let mut i: usize = 0;
        while i < self.voices.len()
            invariant
                i <= self.voices@.len(),
                cmds@ == all_start_cmds(self.voices@.take(i as int)),
            decreases self.voices@.len() - i,
        {
            let mut vc = self.voices[i].start();
            cmds.append(&mut vc);
            i = i + 1;
            proof {
                assert(self.voices@.take(i as int).drop_last() =~= self.voices@.take(i - 1));
                assert(cmds@ =~= all_start_cmds(self.voices@.take(i as int)));
            }
        }
        proof {
            assert(self.voices@.take(self.voices@.len() as int) =~= self.voices@);
        }
        cmds
    }

    /// Ends continuous generation on every oscillator of every voice.
    pub fn off(&self) -> (cmds: Vec<HostCmd>)
        ensures
            cmds@ == all_stop_cmds(self.voices_view()),
    {
        let mut cmds: Vec<HostCmd> = Vec::new();
        let mut i: usize = 0;
        while i < self.voices.len()
            invariant
                i <= self.voices@.len(),
                cmds@ == all_stop_cmds(self.voices@.take(i as int)),
            decreases self.voices@.len() - i,
        {
            let mut vc = self.voices[i].stop();
            cmds.append(&mut vc);
            i = i + 1;
            proof {
                assert(self.voices@.take(i as int).drop_last() =~= self.voices@.take(i - 1));
                assert(cmds@ =~= all_stop_cmds(self.voices@.take(i as int)));
            }
        }
        proof {
            assert(self.voices@.take(self.voices@.len() as int) =~= self.voices@);
        }
        cmds
    }

    /// Sets the stored amplitude-envelope attack, in milliseconds.
    pub fn set_amp_attack(&mut self, v: u32)
        ensures
            *final(self) == (Oscillator {
                amp_env: Envelope { attack: v, ..old(self).amp_env },
                ..*old(self)
            }),
    {
        self.amp_env.attack = v;
    }

    /// Sets the stored amplitude-envelope decay, in milliseconds.
    pub fn set_amp_decay(&mut self, v: u32)
        ensures
            *final(self) == (Oscillator {
                amp_env: Envelope { decay: v, ..old(self).amp_env },
                ..*old(self)
            }),
    {
        self.amp_env.decay = v;
    }

    /// Sets the stored amplitude-envelope sustain, in thousandths; the
    /// value is stored as given, without clamping.
    pub fn set_amp_sustain(&mut self, v: i64)
        ensures
            *final(self) == (Oscillator {
                amp_env: Envelope { sustain: v, ..old(self).amp_env },
                ..*old(self)
            }),
    {
        self.amp_env.sustain = v;
    }

    /// Sets the stored amplitude-envelope release, in milliseconds.
    pub fn set_amp_release(&mut self, v: u32)
        ensures
            *final(self) == (Oscillator {
                amp_env: Envelope { release: v, ..old(self).amp_env },
                ..*old(self)
            }),
    {
        self.amp_env.release = v;
    }

    /// Sets the stored filter-envelope attack, in milliseconds.
    pub fn set_filter_attack(&mut self, v: u32)
        ensures
            *final(self) == (Oscillator {
                filter_env: Envelope { attack: v, ..old(self).filter_env },
                ..*old(self)
            }),
    {
        self.filter_env.attack = v;
    }

    /// Sets the stored filter-envelope decay, in milliseconds.
    pub fn set_filter_decay(&mut self, v: u32)
        ensures
            *final(self) == (Oscillator {
                filter_env: Envelope { decay: v, ..old(self).filter_env },
                ..*old(self)
            }),
    {
        self.filter_env.decay = v;
    }

    /// Sets the stored filter-envelope sustain, in thousandths; the value
    /// is stored as given, without clamping.
    pub fn set_filter_sustain(&mut self, v: i64)
        ensures
            *final(self) == (Oscillator {
                filter_env: Envelope { sustain: v, ..old(self).filter_env },
                ..*old(self)
            }),
    {
        self.filter_env.sustain = v;
    }

    /// Sets the stored filter-envelope release, in milliseconds.
    pub fn set_filter_release(&mut self, v: u32)
        ensures
            *final(self) == (Oscillator {
                filter_env: Envelope { release: v, ..old(self).filter_env },
                ..*old(self)
            }),
    {
        self.filter_env.release = v;
    }

    /// Moves the base filter cutoff on every voice, effective
    /// immediately, and remembers it for later envelopes.
    pub fn set_filter_frequency(&mut self, f: u32) -> (cmds: Vec<HostCmd>)
        ensures
            *final(self) == (Oscillator { filter_frequency: f, ..*old(self) }),
            cmds@ == set_filter_freq_cmds(final(self).voices_view(), f),
    {
        self.filter_frequency = f;
        let mut cmds: Vec<HostCmd> = Vec::new();
        let mut i: usize = 0;
        while i < self.voices.len()
            invariant
                i <= self.voices@.len(),
                *self == (Oscillator { filter_frequency: f, ..*old(self) }),
                cmds@ == Seq::new(
                    i as nat,
                    |k: int| HostCmd::SetValue {
                        param: ParamAddr {
                            node: self.voices@[k].filter,
                            param: ParamKind::Frequency,
                        },
                        value: (f * 1000) as i64,
                        at_ms: 0,
                    },
                ),
            decreases self.voices@.len() - i,
        {
            let c = self.voices[i].set_filter_frequency(f);
            cmds.push(c);
            i = i + 1;
            proof {
                assert(cmds@ =~= Seq::new(
                    i as nat,
                    |k: int| HostCmd::SetValue {
                        param: ParamAddr {
                            node: self.voices@[k].filter,
                            param: ParamKind::Frequency,
                        },
                        value: (f * 1000) as i64,
                        at_ms: 0,
                    },
                ));
            }
        }
        proof {
            assert(cmds@ =~= set_filter_freq_cmds(self.voices@, f));
        }
        cmds
    }

    /// Moves the filter resonance on every voice, effective immediately,
    /// and remembers it.
    pub fn set_filter_resonance(&mut self, q: i64) -> (cmds: Vec<HostCmd>)
        ensures
            *final(self) == (Oscillator { filter_resonance: q, ..*old(self) }),
            cmds@ == set_filter_res_cmds(final(self).voices_view(), q),
    {
        self.filter_resonance = q;
        let mut cmds: Vec<HostCmd> = Vec::new();
        let mut i: usize = 0;
        while i < self.voices.len()
            invariant
                i <= self.voices@.len(),
                *self == (Oscillator { filter_resonance: q, ..*old(self) }),
                cmds@ == Seq::new(
                    i as nat,
                    |k: int| HostCmd::SetValue {
                        param: ParamAddr {
                            node: self.voices@[k].filter,
                            param: ParamKind::QFactor,
                        },
                        value: q,
                        at_ms: 0,
                    },
                ),
            decreases self.voices@.len() - i,
        {
            let c = self.voices[i].set_filter_resonance(q);
            cmds.push(c);
            i = i + 1;
            proof {
                assert(cmds@ =~= Seq::new(
                    i as nat,
                    |k: int| HostCmd::SetValue {
                        param: ParamAddr {
                            node: self.voices@[k].filter,
                            param: ParamKind::QFactor,
                        },
                        value: q,
                        at_ms: 0,
                    },
                ));
            }
        }
        proof {
            assert(cmds@ =~= set_filter_res_cmds(self.voices@, q));
        }
        cmds
    }

    /// Wires the pool's shared output into a downstream unit.
    pub fn connect_with_audio_node(&self, destination: &NodeId) -> (c: HostCmd)
        ensures
            c == (HostCmd::Connect { from: self.amp_view(), to: *destination }),
    {
        HostCmd::Connect { from: self.amp, to: *destination }
    }

    /// Builds a pool: one shared output gain stage and `polyphony`
    /// voices of `unison` oscillators each, every voice wired into the
    /// shared stage and set to a sine waveform.
    pub fn new(
        graph: &mut AudioGraph,
        polyphony: usize,
        unison: usize,
        filter_frequency: u32,
        filter_resonance: i64,
    ) -> (r: (Oscillator, Vec<HostCmd>))
        requires
            polyphony >= 1,
            unison >= 1,
            500 * (unison - 1) <= i64::MAX,
            old(graph).next_node + 1 + polyphony * (2 + unison) <= u64::MAX,
        ensures
            r.0.wf(),
            r.0.polyphony == polyphony,
            r.0.playing() == Seq::new(polyphony as nat, |i: int| None::<u8>),
            r.0.last_voice_view() is None,
            r.0.gain_view() == 900,
            r.0.amp_env == (Envelope { attack: 30u32, decay: 300u32, sustain: 1000i64, release: 800u32 }),
            r.0.filter_env == (Envelope {
                attack: 30u32,
                decay: 300u32,
                sustain: 1000i64,
                release: 800u32,
            }),
            r.0.osc_type == Waveform::Sine,
            r.0.filter_frequency == filter_frequency,
            r.0.filter_resonance == filter_resonance,
            r.0.amp_view() == NodeId(old(graph).next_node),
            r.0.voices_view().len() == polyphony,
            forall|i: int| 0 <= i < polyphony ==> (#[trigger] r.0.voices_view()[i]).unison
                == unison,
            final(graph).next_node == old(graph).next_node + 1 + polyphony * (2 + unison),
            r.1@ == oscillator_setup_cmds(r.0),
    {
        let ghost base = graph.next_node;
        let amp = graph.fresh();
        let mut cmds: Vec<HostCmd> = Vec::new();
        cmds.push(HostCmd::CreateGain { node: amp });
        let mut voices: Vec<Voice> = Vec::new();
        let mut i: usize = 0;
        proof {
            assert(cmds@ =~= seq![HostCmd::CreateGain { node: amp }] + voices_setup_cmds(
                voices@,
                amp,
            ));
        }
        while i < polyphony
            invariant
                i <= polyphony,
                unison >= 1,
                polyphony >= 1,
                500 * (unison - 1) <= i64::MAX,
                base + 1 + polyphony * (2 + unison) <= u64::MAX,
                graph.next_node == base + 1 + i * (2 + unison),
                voices@.len() == i,
                forall|k: int| 0 <= k < i ==> (#[trigger] voices@[k]).wf(),
                forall|k: int| 0 <= k < i ==> (#[trigger] voices@[k]).unison == unison,
                cmds@ == seq![HostCmd::CreateGain { node: amp }] + voices_setup_cmds(voices@, amp),
            decreases polyphony - i,
        {
            proof {
                assert(i * (2 + unison) + (2 + unison) == (i + 1) * (2 + unison))
                    by (nonlinear_arith);
                assert((i + 1) * (2 + unison) <= polyphony * (2 + unison)) by (nonlinear_arith)
                    requires
                        i + 1 <= polyphony,
                        unison >= 1,
                ;
            }
            let (v, mut vcmds) = Voice::new(graph, unison);
            let wire = v.connect_to_audio(&amp);
            let ghost voices_pre = voices@;
            voices.push(v);
            cmds.append(&mut vcmds);
            cmds.push(wire);
            i = i + 1;
            proof {
                assert(voices@.drop_last() =~= voices_pre);
                assert(cmds@ =~= seq![HostCmd::CreateGain { node: amp }] + voices_setup_cmds(
                    voices@,
                    amp,
                ));
            }
        }
        let mut notes: Vec<Option<u8>> = Vec::new();
        let mut k: usize = 0;
        while k < polyphony
            invariant
                k <= polyphony,
                notes@ =~= Seq::new(k as nat, |j: int| None::<u8>),
            decreases polyphony - k,
        {
            notes.push(None);
            k = k + 1;
            proof {
                assert(notes@ =~= Seq::new(k as nat, |j: int| None::<u8>));
            }
        }
        let mut o = Oscillator {
            voices,
            notes,
            last_voice: None,
            amp_env: crate::default_envelope(),
            filter_env: crate::default_envelope(),
            osc_type: Waveform::Sine,
            polyphony,
            filter_frequency,
            filter_resonance,
            amp,
            gain: 900,
        };
        let mut wcmds = o.set_waveform(Waveform::Sine);
        cmds.append(&mut wcmds);
        (o, cmds)
    }
}

impl AudioOutput for Oscillator {
    open spec fn output_spec(&self) -> NodeId {
        self.amp_view()
    }

    fn output(&self) -> (n: NodeId) {
        self.amp
    }
}

/// Round-robin soundness: while fewer notes are held than the pool has
/// voices, allocation lands on a free voice, so the notes already held
/// keep their distinct voices untouched.
pub proof fn lemma_allocates_free_voice(o: Oscillator)
    requires
        o.wf(),
        exists|i: int| 0 <= i < o.playing().len() && (#[trigger] o.playing()[i]) is None,
    ensures
        o.playing()[o.chosen_voice()] is None,
        0 <= o.chosen_voice() < o.polyphony,
{
    let notes = o.playing();
    let len = notes.len() as int;
    let start = o.start_index();
    let w = choose|i: int| 0 <= i < len && notes[i] is None;
    let k = if w >= start {
        w - start
    } else {
        w + len - start
    };
    assert(wrap(start + k, len) == w);
    assert(free_slot(notes, start, k));
    lemma_scan_free_finds(notes, start, len as nat);
}

/// Stealing determinism: with every voice held, allocation returns
/// exactly the round-robin successor of the last allocated index, modulo
/// the pool size.
pub proof fn lemma_steals_round_robin_successor(o: Oscillator)
    requires
        o.wf(),
        forall|i: int| 0 <= i < o.playing().len() ==> !((#[trigger] o.playing()[i]) is None),
    ensures
        o.chosen_voice() == o.start_index(),
{
    let notes = o.playing();
    let len = notes.len() as int;
    let start = o.start_index();
    lemma_scan_free_all_busy(notes, start, len as nat);
    assert(wrap(start + len, len) == start);
}

} // verus!
