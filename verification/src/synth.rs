//! The assembled instrument: mixer channels, the two-oscillator synth
//! itself, and a low-frequency oscillator stub.

use vstd::prelude::*;

use crate::audio::connect_to_one;
use crate::audio::AudioInput;
use crate::audio::AudioInputs;
use crate::audio::AudioOutput;
use crate::host::AudioGraph;
use crate::host::HostCmd;
use crate::host::NodeId;
use crate::host::ParamAddr;
use crate::host::ParamKind;
use crate::host::Waveform;
use crate::osc::all_start_cmds;
use crate::osc::all_waveform_cmds;
use crate::osc::clamped_gain;
use crate::osc::clear_note;
use crate::osc::note_on_cmds;
use crate::osc::note_off_cmds;
use crate::osc::oscillator_setup_cmds;
use crate::osc::set_filter_freq_cmds;
use crate::osc::set_filter_res_cmds;
use crate::osc::Oscillator;
use crate::Envelope;
use crate::ProtocolError;
use crate::FILTER_MAX_FREQ;

verus! {

/// One mixer strip: a single gain stage that starts muted.
pub struct Channel {
    /// Identity of the strip's gain unit.
    pub gain: NodeId,
}

/// The creation commands of one channel: its gain unit, muted.
pub open spec fn channel_setup_cmds(gain: NodeId) -> Seq<HostCmd> {
    seq![
        HostCmd::CreateGain { node: gain },
        HostCmd::SetValue {
            param: ParamAddr { node: gain, param: ParamKind::Gain },
            value: 0,
            at_ms: 0,
        },
    ]
}

impl Channel {
    /// A new strip, muted until a gain is set.
    pub fn new(graph: &mut AudioGraph) -> (r: (Channel, Vec<HostCmd>))
        requires
            old(graph).next_node < u64::MAX,
        ensures
            r.0.gain == NodeId(old(graph).next_node),
            final(graph).next_node == old(graph).next_node + 1,
            r.1@ == channel_setup_cmds(r.0.gain),
    {
        let g = graph.fresh();
        let mut cmds: Vec<HostCmd> = Vec::new();
        cmds.push(HostCmd::CreateGain { node: g });
        cmds.push(
            HostCmd::SetValue {
                param: ParamAddr { node: g, param: ParamKind::Gain },
                value: 0,
                at_ms: 0,
            },
        );
        proof {
            assert(cmds@ =~= channel_setup_cmds(g));
        }
        (Channel { gain: g }, cmds)
    }

    /// Moves the strip's level, effective immediately and unclamped.
    pub fn set_gain(&self, gain: i64) -> (c: HostCmd)
        ensures
            c == (HostCmd::SetValue {
                param: ParamAddr { node: self.gain, param: ParamKind::Gain },
                value: gain,
                at_ms: 0,
            }),
    {
        HostCmd::SetValue {
            param: ParamAddr { node: self.gain, param: ParamKind::Gain },
            value: gain,
            at_ms: 0,
        }
    }
}

impl AudioInput for Channel {
    open spec fn input_spec(&self) -> NodeId {
        self.gain
    }

    fn input(&self) -> (n: NodeId) {
        self.gain
    }
}

impl AudioOutput for Channel {
    open spec fn output_spec(&self) -> NodeId {
        self.gain
    }

    fn output(&self) -> (n: NodeId) {
        self.gain
    }
}

/// Creation and wiring of the input strips: each one built muted, then
/// wired into the master strip.
pub open spec fn channels_setup_cmds(chs: Seq<Channel>, master: NodeId) -> Seq<HostCmd>
    decreases chs.len(),
{
    if chs.len() == 0 {
        Seq::empty()
    } else {
        channels_setup_cmds(chs.drop_last(), master) + channel_setup_cmds(chs.last().gain)
            + seq![HostCmd::Connect { from: chs.last().gain, to: master }]
    }
}

/// A bank of input strips feeding one master strip.
pub struct Mixer {
    channels: Vec<Channel>,
    master: Channel,
}

impl Mixer {
    /// The input strips, in order.
    pub closed spec fn channels_view(self) -> Seq<Channel> {
        self.channels@
    }

    /// The master strip every input feeds.
    pub closed spec fn master_view(self) -> Channel {
        self.master
    }

    /// Builds a mixer: a master strip, `channel_count` input strips wired
    /// into it, the master raised to nine tenths and every input to
    /// eight tenths.
    pub fn new(graph: &mut AudioGraph, channel_count: u8) -> (r: (Mixer, Vec<HostCmd>))
        requires
            old(graph).next_node + 1 + channel_count <= u64::MAX,
        ensures
            r.0.channels_view().len() == channel_count,
            r.0.master_view().gain == NodeId(old(graph).next_node),
            final(graph).next_node == old(graph).next_node + 1 + channel_count,
            r.1@ == channel_setup_cmds(r.0.master_view().gain) + channels_setup_cmds(
                r.0.channels_view(),
                r.0.master_view().gain,
            ) + seq![
                HostCmd::SetValue {
                    param: ParamAddr { node: r.0.master_view().gain, param: ParamKind::Gain },
                    value: 900,
                    at_ms: 0,
                },
            ] + Seq::new(
                channel_count as nat,
                |i: int| HostCmd::SetValue {
                    param: ParamAddr {
                        node: r.0.channels_view()[i].gain,
                        param: ParamKind::Gain,
                    },
                    value: 800,
                    at_ms: 0,
                },
            ),
    {
        let (master, mut cmds) = Channel::new(graph);
        let mut channels: Vec<Channel> = Vec::new();
        let mut i: usize = 0;
        proof {
            assert(cmds@ =~= channel_setup_cmds(master.gain) + channels_setup_cmds(
                channels@,
                master.gain,
            ));
        }
        while i < channel_count as usize
            invariant
                i <= channel_count as usize,
                graph.next_node == old(graph).next_node + 1 + i,
                old(graph).next_node + 1 + channel_count <= u64::MAX,
                channels@.len() == i,
                cmds@ == channel_setup_cmds(master.gain) + channels_setup_cmds(
                    channels@,
                    master.gain,
                ),
            decreases channel_count - i,
        {
            let (c, mut ccmds) = Channel::new(graph);
            let wire = HostCmd::Connect { from: c.gain, to: master.gain };
            let ghost chans_pre = channels@;
            channels.push(c);
            cmds.append(&mut ccmds);
            cmds.push(wire);
            i = i + 1;
            proof {
                assert(channels@.drop_last() =~= chans_pre);
                assert(cmds@ =~= channel_setup_cmds(master.gain) + channels_setup_cmds(
                    channels@,
                    master.gain,
                ));
            }
        }
        let m = Mixer { channels, master };
        let mc = m.set_master_gain(900);
        cmds.push(mc);
        let ghost mid = cmds@;
        let mut k: usize = 0;
        while k < m.channels.len()
            invariant
                k <= m.channels@.len(),
                m.channels@.len() == channel_count,
                cmds@ == mid + Seq::new(
                    k as nat,
                    |j: int| HostCmd::SetValue {
                        param: ParamAddr { node: m.channels@[j].gain, param: ParamKind::Gain },
                        value: 800,
                        at_ms: 0,
                    },
                ),
            decreases m.channels@.len() - k,
        {
            let c = m.set_gain(k, 800);
            cmds.push(c);
            k = k + 1;
            proof {
                assert(cmds@ =~= mid + Seq::new(
                    k as nat,
                    |j: int| HostCmd::SetValue {
                        param: ParamAddr { node: m.channels@[j].gain, param: ParamKind::Gain },
                        value: 800,
                        at_ms: 0,
                    },
                ));
            }
        }
        (m, cmds)
    }

    /// Moves the master strip's level.
    pub fn set_master_gain(&self, gain: i64) -> (c: HostCmd)
        ensures
            c == (HostCmd::SetValue {
                param: ParamAddr { node: self.master_view().gain, param: ParamKind::Gain },
                value: gain,
                at_ms: 0,
            }),
    {
        self.master.set_gain(gain)
    }

    /// Moves one input strip's level. Addressing a strip the mixer does
    /// not have is a wiring bug and is excluded outright.
    pub fn set_gain(&self, idx: usize, gain: i64) -> (c: HostCmd)
        requires
            idx < self.channels_view().len(),
        ensures
            c == (HostCmd::SetValue {
                param: ParamAddr { node: self.channels_view()[idx as int].gain, param: ParamKind::Gain },
                value: gain,
                at_ms: 0,
            }),
    {
        self.channels[idx].set_gain(gain)
    }

    /// Wires the master strip into the host's final output sink.
    pub fn connect_to_speakers(&self) -> (c: HostCmd)
        ensures
            c == (HostCmd::ConnectToDestination { from: self.master_view().gain }),
    {
        HostCmd::ConnectToDestination { from: self.master.gain }
    }
}

impl AudioInputs for Mixer {
    open spec fn inputs_spec(&self) -> Seq<NodeId> {
        self.channels_view().map_values(|c: Channel| c.gain)
    }

    fn inputs(&self) -> (v: Vec<NodeId>) {
        let mut v: Vec<NodeId> = Vec::new();
        let mut i: usize = 0;
        while i < self.channels.len()
            invariant
                i <= self.channels@.len(),
                v@ == self.channels@.take(i as int).map_values(|c: Channel| c.gain),
            decreases self.channels@.len() - i,
        {
            v.push(self.channels[i].gain);
            i = i + 1;
            proof {
                assert(v@ =~= self.channels@.take(i as int).map_values(|c: Channel| c.gain));
            }
        }
        proof {
            assert(self.channels@.take(self.channels@.len() as int) =~= self.channels@);
        }
        v
    }
}

/// A low-frequency oscillator: one host oscillator reserved for slow
/// modulation, born at one and a half hertz.
pub struct LFO {
    osc: NodeId,
    frequency: i64,
}

impl LFO {
    /// The reserved oscillator unit.
    pub closed spec fn osc_view(self) -> NodeId {
        self.osc
    }

    /// The configured rate in millihertz.
    pub closed spec fn frequency_view(self) -> i64 {
        self.frequency
    }

    /// Reserves an oscillator for modulation duty.
    pub fn new(graph: &mut AudioGraph) -> (r: (LFO, Vec<HostCmd>))
        requires
            old(graph).next_node < u64::MAX,
        ensures
            r.0.osc_view() == NodeId(old(graph).next_node),
            r.0.frequency_view() == 1500,
            final(graph).next_node == old(graph).next_node + 1,
            r.1@ == seq![HostCmd::CreateOscillator { node: r.0.osc_view() }],
    {
        let o = graph.fresh();
        let mut cmds: Vec<HostCmd> = Vec::new();
        cmds.push(HostCmd::CreateOscillator { node: o });
        proof {
            assert(cmds@ =~= seq![HostCmd::CreateOscillator { node: o }]);
        }
        (LFO { osc: o, frequency: 1500 }, cmds)
    }
}

/// The two-oscillator polyphonic instrument: two voice pools blended
/// into one output gain stage.
pub struct Subjam {
    /// The first voice pool.
    pub osc1: Oscillator,
    /// The second voice pool.
    pub osc2: Oscillator,
    /// Blend between the pools in thousandths: the second pool's share.
    pub osc_mix: i64,
    /// Base filter cutoff in hertz, shared by both pools.
    pub filter_frequency: u32,
    /// Filter resonance in thousandths, shared by both pools.
    pub filter_q: i64,
    /// The shared output gain stage.
    pub out: NodeId,
}

impl Subjam {
    /// The first voice pool.
    pub open spec fn osc1_view(self) -> Oscillator {
        self.osc1
    }

    /// The second voice pool.
    pub open spec fn osc2_view(self) -> Oscillator {
        self.osc2
    }

    /// The shared output gain stage.
    pub open spec fn out_view(self) -> NodeId {
        self.out
    }

    /// Soundness: both pools are sound and, having always received the
    /// same note events, agree on which voice sounds which note.
    pub open spec fn wf(self) -> bool {
        &&& self.osc1_view().wf()
        &&& self.osc2_view().wf()
        &&& self.osc1_view().playing() == self.osc2_view().playing()
        &&& self.osc1_view().last_voice_view() == self.osc2_view().last_voice_view()
        &&& self.osc1_view().polyphony == self.osc2_view().polyphony
    }

    /// Builds the instrument: two sixteen-voice pools, sawtooth against
    /// square, running continuously into a half-open blend stage.
    pub fn new(graph: &mut AudioGraph) -> (r: (Subjam, Vec<HostCmd>))
        requires
            old(graph).next_node + 99 <= u64::MAX,
        ensures
            r.0.wf(),
            r.0.osc_mix == 500,
            r.0.filter_frequency == FILTER_MAX_FREQ,
            r.0.filter_q == 0,
            r.0.osc1_view().polyphony == 16,
            r.0.osc2_view().polyphony == 16,
            forall|i: int| 0 <= i < 16 ==> (#[trigger] r.0.osc1_view().voices_view()[i]).unison
                == 1,
            forall|i: int| 0 <= i < 16 ==> (#[trigger] r.0.osc2_view().voices_view()[i]).unison
                == 1,
            r.0.osc1_view().osc_type == Waveform::Sawtooth,
            r.0.osc2_view().osc_type == Waveform::Square,
            r.0.osc1_view().gain_view() == 500,
            r.0.osc2_view().gain_view() == 500,
            r.0.osc1_view().filter_frequency == FILTER_MAX_FREQ,
            r.0.osc2_view().filter_frequency == FILTER_MAX_FREQ,
            r.0.osc1_view().filter_resonance == 0,
            r.0.osc2_view().filter_resonance == 0,
            r.0.osc1_view().playing() == Seq::new(16nat, |i: int| None::<u8>),
            r.0.osc2_view().playing() == Seq::new(16nat, |i: int| None::<u8>),
            r.0.osc1_view().last_voice_view() is None,
            r.0.osc2_view().last_voice_view() is None,
            final(graph).next_node == old(graph).next_node + 99,
            r.0.osc1_view().amp_env == (Envelope {
                attack: 30u32,
                decay: 300u32,
                sustain: 1000i64,
                release: 800u32,
            }),
            r.0.osc1_view().filter_env == r.0.osc1_view().amp_env,
            r.0.osc2_view().amp_env == r.0.osc1_view().amp_env,
            r.0.osc2_view().filter_env == r.0.osc1_view().amp_env,
            r.1@ == oscillator_setup_cmds(r.0.osc1_view()) + oscillator_setup_cmds(
                r.0.osc2_view(),
            ) + seq![
                HostCmd::CreateGain { node: r.0.out_view() },
                HostCmd::SetValue {
                    param: ParamAddr { node: r.0.out_view(), param: ParamKind::Gain },
                    value: 500,
                    at_ms: 0,
                },
            ] + all_waveform_cmds(r.0.osc1_view().voices_view(), Waveform::Sawtooth)
                + all_waveform_cmds(r.0.osc2_view().voices_view(), Waveform::Square)
                + all_start_cmds(r.0.osc1_view().voices_view()) + all_start_cmds(
                r.0.osc2_view().voices_view(),
            ) + seq![
                HostCmd::Connect { from: r.0.osc1_view().amp_view(), to: r.0.out_view() },
                HostCmd::Connect { from: r.0.osc2_view().amp_view(), to: r.0.out_view() },
            ],
    {
        let polyphony: usize = 16;
        let unison: usize = 1;
        let filter_frequency: u32 = FILTER_MAX_FREQ;
        let filter_q: i64 = 0;
        let (mut osc1, mut cmds) = Oscillator::new(
            graph,
            polyphony,
            unison,
            filter_frequency,
            filter_q,
        );
        let (mut osc2, mut c2) = Oscillator::new(graph, polyphony, unison, filter_frequency, filter_q);
        cmds.append(&mut c2);
        let g = graph.fresh();
        cmds.push(HostCmd::CreateGain { node: g });
        cmds.push(
            HostCmd::SetValue {
                param: ParamAddr { node: g, param: ParamKind::Gain },
                value: 500,
                at_ms: 0,
            },
        );
        let mut w1 = osc1.set_waveform(Waveform::Sawtooth);
        cmds.append(&mut w1);
        let mut w2 = osc2.set_waveform(Waveform::Square);
        cmds.append(&mut w2);
        let mut s1 = osc1.on();
        cmds.append(&mut s1);
        let mut s2 = osc2.on();
        cmds.append(&mut s2);
        cmds.push(osc1.connect_with_audio_node(&g));
        cmds.push(osc2.connect_with_audio_node(&g));
        osc2.set_gain(500);
        osc1.set_gain(1000 - 500);
        let subjam = Subjam {
            osc_mix: 500,
            osc1,
            osc2,
            filter_frequency,
            filter_q,
            out: g,
        };
        proof {
            assert(cmds@ =~= oscillator_setup_cmds(subjam.osc1_view()) + oscillator_setup_cmds(
                subjam.osc2_view(),
            ) + seq![
                HostCmd::CreateGain { node: g },
                HostCmd::SetValue {
                    param: ParamAddr { node: g, param: ParamKind::Gain },
                    value: 500,
                    at_ms: 0,
                },
            ] + all_waveform_cmds(subjam.osc1_view().voices_view(), Waveform::Sawtooth)
                + all_waveform_cmds(subjam.osc2_view().voices_view(), Waveform::Square)
                + all_start_cmds(subjam.osc1_view().voices_view()) + all_start_cmds(
                subjam.osc2_view().voices_view(),
            ) + seq![
                HostCmd::Connect { from: subjam.osc1_view().amp_view(), to: g },
                HostCmd::Connect { from: subjam.osc2_view().amp_view(), to: g },
            ]);
        }
        (subjam, cmds)
    }

    /// Applies a waveform to the first pool.
    pub fn set_osc1_type(&mut self, waveform: Waveform) -> (cmds: Vec<HostCmd>)
        requires
            old(self).wf(),
        ensures
            final(self).wf(),
            final(self).osc1 == (Oscillator { osc_type: waveform, ..old(self).osc1 }),
            final(self).osc2 == old(self).osc2,
            final(self).osc_mix == old(self).osc_mix,
            final(self).filter_frequency == old(self).filter_frequency,
            final(self).filter_q == old(self).filter_q,
            final(self).out == old(self).out,
            cmds@ == all_waveform_cmds(final(self).osc1_view().voices_view(), waveform),
    {
        self.osc1.set_waveform(waveform)
    }

    /// Applies a waveform to the second pool.
    pub fn set_osc2_type(&mut self, waveform: Waveform) -> (cmds: Vec<HostCmd>)
        requires
            old(self).wf(),
        ensures
            final(self).wf(),
            final(self).osc2 == (Oscillator { osc_type: waveform, ..old(self).osc2 }),
            final(self).osc1 == old(self).osc1,
            final(self).osc_mix == old(self).osc_mix,
            final(self).filter_frequency == old(self).filter_frequency,
            final(self).filter_q == old(self).filter_q,
            final(self).out == old(self).out,
            cmds@ == all_waveform_cmds(final(self).osc2_view().voices_view(), waveform),
    {
        self.osc2.set_waveform(waveform)
    }

    /// The first pool's waveform.
    pub fn get_osc1_type(&self) -> (w: Waveform)
        ensures
            w == self.osc1_view().osc_type,
    {
        self.osc1.osc_type
    }

    /// The second pool's waveform.
    pub fn get_osc2_type(&self) -> (w: Waveform)
        ensures
            w == self.osc2_view().osc_type,
    {
        self.osc2.osc_type
    }

    /// Moves the base filter cutoff on every voice of both pools.
    pub fn set_filter_frequency(&mut self, f: u32) -> (cmds: Vec<HostCmd>)
        requires
            old(self).wf(),
        ensures
            final(self).wf(),
            final(self).filter_frequency == f,
            final(self).osc1 == (Oscillator { filter_frequency: f, ..old(self).osc1 }),
            final(self).osc2 == (Oscillator { filter_frequency: f, ..old(self).osc2 }),
            *final(self) == (Subjam {
                osc1: final(self).osc1,
                osc2: final(self).osc2,
                filter_frequency: f,
                ..*old(self)
            }),
            cmds@ == set_filter_freq_cmds(final(self).osc1_view().voices_view(), f) + set_filter_freq_cmds(
                final(self).osc2_view().voices_view(),
                f,
            ),
    {
        self.filter_frequency = f;
        let mut cmds = self.osc1.set_filter_frequency(f);
        let mut c2 = self.osc2.set_filter_frequency(f);
        cmds.append(&mut c2);
        cmds
    }

    /// Moves the filter resonance on every voice of both pools.
    pub fn set_filter_resonance(&mut self, q: i64) -> (cmds: Vec<HostCmd>)
        requires
            old(self).wf(),
        ensures
            final(self).wf(),
            final(self).filter_q == q,
            final(self).osc1 == (Oscillator { filter_resonance: q, ..old(self).osc1 }),
            final(self).osc2 == (Oscillator { filter_resonance: q, ..old(self).osc2 }),
            *final(self) == (Subjam {
                osc1: final(self).osc1,
                osc2: final(self).osc2,
                filter_q: q,
                ..*old(self)
            }),
            cmds@ == set_filter_res_cmds(final(self).osc1_view().voices_view(), q) + set_filter_res_cmds(
                final(self).osc2_view().voices_view(),
                q,
            ),
    {
        self.filter_q = q;
        let mut cmds = self.osc1.set_filter_resonance(q);
        let mut c2 = self.osc2.set_filter_resonance(q);
        cmds.append(&mut c2);
        cmds
    }

    /// The shared base filter cutoff in hertz.
    pub fn get_filter_frequency(&self) -> (f: u32)
        ensures
            f == self.filter_frequency,
    {
        self.filter_frequency
    }

    /// The shared filter resonance in thousandths.
    pub fn get_filter_resonance(&self) -> (q: i64)
        ensures
            q == self.filter_q,
    {
        self.filter_q
    }

    /// Sets the amplitude-envelope attack on both pools, in milliseconds.
    pub fn set_amp_attack(&mut self, v: u32)
        requires
            old(self).wf(),
        ensures
            final(self).wf(),
            final(self).osc1 == (Oscillator {
                amp_env: Envelope { attack: v, ..old(self).osc1.amp_env },
                ..old(self).osc1
            }),
            final(self).osc2 == (Oscillator {
                amp_env: Envelope { attack: v, ..old(self).osc2.amp_env },
                ..old(self).osc2
            }),
            *final(self) == (Subjam { osc1: final(self).osc1, osc2: final(self).osc2, ..*old(self) }),
    {
        self.osc1.set_amp_attack(v);
        self.osc2.set_amp_attack(v);
    }

    /// Sets the amplitude-envelope decay on both pools, in milliseconds.
    pub fn set_amp_decay(&mut self, v: u32)
        requires
            old(self).wf(),
        ensures
            final(self).wf(),
            final(self).osc1 == (Oscillator {
                amp_env: Envelope { decay: v, ..old(self).osc1.amp_env },
                ..old(self).osc1
            }),
            final(self).osc2 == (Oscillator {
                amp_env: Envelope { decay: v, ..old(self).osc2.amp_env },
                ..old(self).osc2
            }),
            *final(self) == (Subjam { osc1: final(self).osc1, osc2: final(self).osc2, ..*old(self) }),
    {
        self.osc1.set_amp_decay(v);
        self.osc2.set_amp_decay(v);
    }

    /// Sets the amplitude-envelope sustain on both pools, in thousandths,
    /// stored without clamping.
    pub fn set_amp_sustain(&mut self, v: i64)
        requires
            old(self).wf(),
        ensures
            final(self).wf(),
            final(self).osc1 == (Oscillator {
                amp_env: Envelope { sustain: v, ..old(self).osc1.amp_env },
                ..old(self).osc1
            }),
            final(self).osc2 == (Oscillator {
                amp_env: Envelope { sustain: v, ..old(self).osc2.amp_env },
                ..old(self).osc2
            }),
            *final(self) == (Subjam { osc1: final(self).osc1, osc2: final(self).osc2, ..*old(self) }),
    {
        self.osc1.set_amp_sustain(v);
        self.osc2.set_amp_sustain(v);
    }

    /// Sets the amplitude-envelope release on both pools, in milliseconds.
    pub fn set_amp_release(&mut self, v: u32)
        requires
            old(self).wf(),
        ensures
            final(self).wf(),
            final(self).osc1 == (Oscillator {
                amp_env: Envelope { release: v, ..old(self).osc1.amp_env },
                ..old(self).osc1
            }),
            final(self).osc2 == (Oscillator {
                amp_env: Envelope { release: v, ..old(self).osc2.amp_env },
                ..old(self).osc2
            }),
            *final(self) == (Subjam { osc1: final(self).osc1, osc2: final(self).osc2, ..*old(self) }),
    {
        self.osc1.set_amp_release(v);
        self.osc2.set_amp_release(v);
    }

    /// Sets the filter-envelope attack on both pools, in milliseconds.
    pub fn set_filter_attack(&mut self, v: u32)
        requires
            old(self).wf(),
        ensures
            final(self).wf(),
            final(self).osc1 == (Oscillator {
                filter_env: Envelope { attack: v, ..old(self).osc1.filter_env },
                ..old(self).osc1
            }),
            final(self).osc2 == (Oscillator {
                filter_env: Envelope { attack: v, ..old(self).osc2.filter_env },
                ..old(self).osc2
            }),
            *final(self) == (Subjam { osc1: final(self).osc1, osc2: final(self).osc2, ..*old(self) }),
    {
        self.osc1.set_filter_attack(v);
        self.osc2.set_filter_attack(v);
    }

    /// Sets the filter-envelope decay on both pools, in milliseconds.
    pub fn set_filter_decay(&mut self, v: u32)
        requires
            old(self).wf(),
        ensures
            final(self).wf(),
            final(self).osc1 == (Oscillator {
                filter_env: Envelope { decay: v, ..old(self).osc1.filter_env },
                ..old(self).osc1
            }),
            final(self).osc2 == (Oscillator {
                filter_env: Envelope { decay: v, ..old(self).osc2.filter_env },
                ..old(self).osc2
            }),
            *final(self) == (Subjam { osc1: final(self).osc1, osc2: final(self).osc2, ..*old(self) }),
    {
        self.osc1.set_filter_decay(v);
        self.osc2.set_filter_decay(v);
    }

    /// Sets the filter-envelope sustain on both pools, in thousandths,
    /// stored without clamping.
    pub fn set_filter_sustain(&mut self, v: i64)
        requires
            old(self).wf(),
        ensures
            final(self).wf(),
            final(self).osc1 == (Oscillator {
                filter_env: Envelope { sustain: v, ..old(self).osc1.filter_env },
                ..old(self).osc1
            }),
            final(self).osc2 == (Oscillator {
                filter_env: Envelope { sustain: v, ..old(self).osc2.filter_env },
                ..old(self).osc2
            }),
            *final(self) == (Subjam { osc1: final(self).osc1, osc2: final(self).osc2, ..*old(self) }),
    {
        self.osc1.set_filter_sustain(v);
        self.osc2.set_filter_sustain(v);
    }

    /// Sets the filter-envelope release on both pools, in milliseconds.
    pub fn set_filter_release(&mut self, v: u32)
        requires
            old(self).wf(),
        ensures
            final(self).wf(),
            final(self).osc1 == (Oscillator {
                filter_env: Envelope { release: v, ..old(self).osc1.filter_env },
                ..old(self).osc1
            }),
            final(self).osc2 == (Oscillator {
                filter_env: Envelope { release: v, ..old(self).osc2.filter_env },
                ..old(self).osc2
            }),
            *final(self) == (Subjam { osc1: final(self).osc1, osc2: final(self).osc2, ..*old(self) }),
    {
        self.osc1.set_filter_release(v);
        self.osc2.set_filter_release(v);
    }

    /// The first pool's amplitude envelope.
    pub fn get_osc1_amp_env(&self) -> (e: Envelope)
        ensures
            e == self.osc1_view().amp_env,
    {
        self.osc1.amp_env
    }

    /// The second pool's amplitude envelope.
    pub fn get_osc2_amp_env(&self) -> (e: Envelope)
        ensures
            e == self.osc2_view().amp_env,
    {
        self.osc2.amp_env
    }

    /// The first pool's filter envelope.
    pub fn get_osc1_filter_env(&self) -> (e: Envelope)
        ensures
            e == self.osc1_view().filter_env,
    {
        self.osc1.filter_env
    }

    /// Balances the two pools: the second pool takes `osc2_gain`
    /// thousandths and the first the complement, both saturated into the
    /// unit range.
    pub fn set_osc_mix(&mut self, osc2_gain: i64)
        requires
            old(self).wf(),
            osc2_gain > i64::MIN + 1000,
        ensures
            final(self).wf(),
            final(self).osc_mix == osc2_gain,
            final(self).osc1 == (Oscillator {
                gain: final(self).osc1.gain,
                ..old(self).osc1
            }),
            final(self).osc2 == (Oscillator {
                gain: final(self).osc2.gain,
                ..old(self).osc2
            }),
            final(self).osc2_view().gain_view() == clamped_gain(osc2_gain as int),
            final(self).osc1_view().gain_view() == clamped_gain(1000 - osc2_gain),
            final(self).filter_frequency == old(self).filter_frequency,
            final(self).filter_q == old(self).filter_q,
            final(self).out == old(self).out,
    {
        self.osc_mix = osc2_gain;
        self.osc2.set_gain(osc2_gain);
        self.osc1.set_gain(1000 - osc2_gain);
    }

    /// Starts a note on both pools; both allocate the same voice index.
    pub fn note_on(&mut self, note: u8, velocity: u8) -> (cmds: Vec<HostCmd>)
        requires
            old(self).wf(),
            -2000000 <= old(self).osc1_view().filter_env.sustain <= 2000000,
            -2000000 <= old(self).osc2_view().filter_env.sustain <= 2000000,
        ensures
            final(self).wf(),
            final(self).osc_mix == old(self).osc_mix,
            final(self).filter_frequency == old(self).filter_frequency,
            final(self).filter_q == old(self).filter_q,
            final(self).out == old(self).out,
            final(self).osc1.playing() == clear_note(old(self).osc1.playing(), note).update(
                old(self).osc1.chosen_voice(),
                Some(note),
            ),
            final(self).osc2.playing() == final(self).osc1.playing(),
            final(self).osc1 == (Oscillator {
                notes: final(self).osc1.notes,
                last_voice: Some(old(self).osc1.chosen_voice() as usize),
                ..old(self).osc1
            }),
            final(self).osc2 == (Oscillator {
                notes: final(self).osc2.notes,
                last_voice: Some(old(self).osc2.chosen_voice() as usize),
                ..old(self).osc2
            }),
            cmds@ == note_on_cmds(
                old(self).osc1_view().voices_view()[old(self).osc1_view().chosen_voice()],
                old(self).osc1_view().amp_env,
                old(self).osc1_view().filter_env,
                old(self).osc1_view().gain_view(),
                old(self).osc1_view().filter_frequency,
                note,
                velocity,
            ) + note_on_cmds(
                old(self).osc2_view().voices_view()[old(self).osc2_view().chosen_voice()],
                old(self).osc2_view().amp_env,
                old(self).osc2_view().filter_env,
                old(self).osc2_view().gain_view(),
                old(self).osc2_view().filter_frequency,
                note,
                velocity,
            ),
    {
        let mut cmds = self.osc1.note_on(note, velocity);
        let mut c2 = self.osc2.note_on(note, velocity);
        cmds.append(&mut c2);
        cmds
    }

    /// Releases a note on both pools. Releasing a note that is not held
    /// is a caller protocol violation: the call refuses fatally and
    /// changes nothing.
    pub fn note_off(&mut self, note: u8) -> (r: Result<Vec<HostCmd>, ProtocolError>)
        requires
            old(self).wf(),
        ensures
            final(self).wf(),
            r is Ok <==> exists|i: int|
                0 <= i < old(self).osc1_view().playing().len()
                    && old(self).osc1_view().playing()[i] == Some(note),
            r is Err ==> r == Err::<Vec<HostCmd>, ProtocolError>(ProtocolError::NoteNotPlaying)
                && *final(self) == *old(self),
            r is Ok ==> final(self).osc1.playing() == old(self).osc1.playing().update(
                choose|i: int|
                    0 <= i < old(self).osc1.playing().len() && old(self).osc1.playing()[i]
                        == Some(note),
                None::<u8>,
            ) && final(self).osc2.playing() == final(self).osc1.playing(),
            r matches Ok(cmds) ==> {
                let i = choose|i: int|
                    0 <= i < old(self).osc1.playing().len() && old(self).osc1.playing()[i]
                        == Some(note);
                cmds@ == note_off_cmds(
                    old(self).osc1.voices_view()[i],
                    old(self).osc1.amp_env,
                    old(self).osc1.filter_env,
                    old(self).osc1.filter_frequency,
                ) + note_off_cmds(
                    old(self).osc2.voices_view()[i],
                    old(self).osc2.amp_env,
                    old(self).osc2.filter_env,
                    old(self).osc2.filter_frequency,
                )
            },
    {
        let c1 = self.osc1.note_off(note);
        match c1 {
            Err(e) => Err(ProtocolError::NoteNotPlaying),
            Ok(mut cmds) => {
                let c2 = self.osc2.note_off(note);
                match c2 {
                    Err(_) => {
                        proof {
                            assert(false);
                        }
                        Err(ProtocolError::NoteNotPlaying)
                    },
                    Ok(mut cmds2) => {
                        proof {
                            let p1 = old(self).osc1.playing();
                            let p2 = old(self).osc2.playing();
                            let i1 = choose|i: int|
                                0 <= i < p1.len() && p1[i] == Some(note);
                            let i2 = choose|i: int|
                                0 <= i < p2.len() && p2[i] == Some(note);
                            assert(p1[i2] == Some(note));
                            assert(i1 == i2);
                        }
                        cmds.append(&mut cmds2);
                        Ok(cmds)
                    },
                }
            },
        }
    }

    /// Wires the instrument's output into one mixer strip. An index past
    /// the mixer's strips is a wiring bug, refused outright.
    pub fn connect_to_mixer(&self, mixer: &Mixer, at: usize) -> (r: Result<HostCmd, ProtocolError>)
        ensures
            at < mixer.channels_view().len() ==> r == Ok::<HostCmd, ProtocolError>(
                HostCmd::Connect {
                    from: self.out_view(),
                    to: mixer.channels_view()[at as int].gain,
                },
            ),
            at >= mixer.channels_view().len() ==> r == Err::<HostCmd, ProtocolError>(
                ProtocolError::InputIndexOutOfRange,
            ),
    {
        connect_to_one(self, mixer, at)
    }
}

impl AudioOutput for Subjam {
    open spec fn output_spec(&self) -> NodeId {
        self.out_view()
    }

    fn output(&self) -> (n: NodeId) {
        self.out
    }
}

} // verus!
