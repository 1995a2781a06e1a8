//! One polyphonic voice: a cluster of detuned unison oscillators feeding a
//! filter and a gain stage, together with the amplitude- and filter-envelope
//! automation that a note start or release schedules on them.

use vstd::prelude::*;

use crate::audio::AudioInput;
use crate::audio::AudioOutput;
use crate::host::AudioGraph;
use crate::host::FilterMode;
use crate::host::HostCmd;
use crate::host::NodeId;
use crate::host::ParamAddr;
use crate::host::ParamKind;
use crate::host::Waveform;
use crate::Envelope;

verus! {

/// A filter unit with a locally cached configuration, so that getters need
/// no round trip to the host.
pub struct Filter {
    /// Identity of the host-side filter unit.
    pub node: NodeId,
    /// The configured response shape.
    pub filter_type: FilterMode,
    /// Base cutoff in hertz.
    pub frequency: u32,
    /// Quality factor in thousandths.
    pub resonance: i64,
}

impl Filter {
    /// A lowpass filter at 8000 Hz with no resonance, the stock shape.
    pub fn new(graph: &mut AudioGraph) -> (r: (Filter, Vec<HostCmd>))
        requires
            old(graph).next_node < u64::MAX,
        ensures
            r.0.node == NodeId(old(graph).next_node),
            r.0.filter_type() == FilterMode::Lowpass,
            r.0.frequency == 8000,
            r.0.resonance == 0,
            final(graph).next_node == old(graph).next_node + 1,
            r.1@ == filter_setup_cmds(r.0.node),
    {
        let node = graph.fresh();
        let mut cmds: Vec<HostCmd> = Vec::new();
        cmds.push(HostCmd::CreateFilter { node });
        cmds.push(HostCmd::SetFilterMode { node, mode: FilterMode::Lowpass });
        cmds.push(
            HostCmd::SetValue {
                param: ParamAddr { node, param: ParamKind::Frequency },
                value: 8_000_000,
                at_ms: 0,
            },
        );
        cmds.push(
            HostCmd::SetValue {
                param: ParamAddr { node, param: ParamKind::QFactor },
                value: 0,
                at_ms: 0,
            },
        );
        let f = Filter { node, filter_type: FilterMode::Lowpass, frequency: 8000, resonance: 0 };
        proof {
            assert(cmds@ =~= filter_setup_cmds(node));
        }
        (f, cmds)
    }

    /// The currently configured response shape.
    pub open spec fn filter_type(&self) -> FilterMode {
        self.filter_type
    }

    /// Reconfigures the response shape.
    pub fn set_type(&mut self, filter_type: FilterMode) -> (c: HostCmd)
        ensures
            final(self).filter_type() == filter_type,
            final(self).node == old(self).node,
            final(self).frequency == old(self).frequency,
            final(self).resonance == old(self).resonance,
            c == (HostCmd::SetFilterMode { node: final(self).node, mode: filter_type }),
    {
        self.filter_type = filter_type;
        HostCmd::SetFilterMode { node: self.node, mode: filter_type }
    }

    /// Moves the base cutoff, effective immediately.
    pub fn set_frequency(&mut self, freq: u32) -> (c: HostCmd)
        ensures
            final(self).frequency == freq,
            final(self).node == old(self).node,
            final(self).filter_type() == old(self).filter_type(),
            final(self).resonance == old(self).resonance,
            c == (HostCmd::SetValue {
                param: ParamAddr { node: final(self).node, param: ParamKind::Frequency },
                value: (freq * 1000) as i64,
                at_ms: 0,
            }),
    {
        self.frequency = freq;
        HostCmd::SetValue {
            param: ParamAddr { node: self.node, param: ParamKind::Frequency },
            value: freq as i64 * 1000,
            at_ms: 0,
        }
    }

    /// Moves the quality factor, effective immediately.
    pub fn set_resonance(&mut self, q: i64) -> (c: HostCmd)
        ensures
            final(self).resonance == q,
            final(self).node == old(self).node,
            final(self).filter_type() == old(self).filter_type(),
            final(self).frequency == old(self).frequency,
            c == (HostCmd::SetValue {
                param: ParamAddr { node: final(self).node, param: ParamKind::QFactor },
                value: q,
                at_ms: 0,
            }),
    {
        self.resonance = q;
        HostCmd::SetValue {
            param: ParamAddr { node: self.node, param: ParamKind::QFactor },
            value: q,
            at_ms: 0,
        }
    }
}

/// The commands a fresh filter sends: creation, lowpass shape, stock
/// cutoff and resonance.
pub open spec fn filter_setup_cmds(node: NodeId) -> Seq<HostCmd> {
    seq![
        HostCmd::CreateFilter { node },
        HostCmd::SetFilterMode { node, mode: FilterMode::Lowpass },
        HostCmd::SetValue {
            param: ParamAddr { node, param: ParamKind::Frequency },
            value: 8_000_000,
            at_ms: 0,
        },
        HostCmd::SetValue { param: ParamAddr { node, param: ParamKind::QFactor }, value: 0, at_ms: 0 },
    ]
}

/// One allocatable polyphonic slot: `unison` oscillators, each detuned by
/// half a cent more than the one before, feeding one shared filter and one
/// shared gain stage.
pub struct Voice {
    /// Number of oscillators sounding together in this voice.
    pub unison: usize,
    /// Identities of the oscillator units, in detune order.
    pub oscs: Vec<NodeId>,
    /// Identity of the shared gain unit.
    pub gain: NodeId,
    /// Identity of the shared filter unit.
    pub filter: NodeId,
}

/// The creation commands shared by every voice: filter, muted gain stage,
/// and the wire between them.
pub open spec fn voice_setup_head(filter: NodeId, gain: NodeId) -> Seq<HostCmd> {
    seq![
        HostCmd::CreateFilter { node: filter },
        HostCmd::CreateGain { node: gain },
        HostCmd::SetValue {
            param: ParamAddr { node: gain, param: ParamKind::Gain },
            value: 0,
            at_ms: 0,
        },
        HostCmd::Connect { from: filter, to: gain },
    ]
}

/// Per-oscillator creation commands: create, detune by half a cent per
/// unison index, and wire into the voice's filter.
pub open spec fn osc_setup_cmds(oscs: Seq<NodeId>, filter: NodeId) -> Seq<HostCmd>
    decreases oscs.len(),
{
    if oscs.len() == 0 {
        Seq::empty()
    } else {
        osc_setup_cmds(oscs.drop_last(), filter) + seq![
            HostCmd::CreateOscillator { node: oscs.last() },
            HostCmd::SetValue {
                param: ParamAddr { node: oscs.last(), param: ParamKind::Detune },
                value: (500 * (oscs.len() - 1)) as i64,
                at_ms: 0,
            },
            HostCmd::Connect { from: oscs.last(), to: filter },
        ]
    }
}

/// Everything a fresh voice asks of the host.
pub open spec fn voice_setup_cmds(filter: NodeId, gain: NodeId, oscs: Seq<NodeId>) -> Seq<
    HostCmd,
> {
    voice_setup_head(filter, gain) + osc_setup_cmds(oscs, filter)
}

/// The peak gain a note reaches before its envelope: velocity out of 127
/// scales the configured gain, divided across the unison cluster so that
/// total loudness stays independent of unison width.
pub open spec fn scaled_peak_gain(max_gain: int, velocity: int, unison: int) -> int {
    velocity * max_gain / 127 / unison
}

/// Amplitude-envelope onset: cancel what is scheduled, anchor at the
/// velocity-scaled level, dip to silence over the pad, ramp linearly to
/// unity over the attack, then approach the sustain level exponentially
/// with the decay as time constant.
pub open spec fn amp_start_cmds(
    gain_node: NodeId,
    env: Envelope,
    max_gain: i64,
    velocity: u8,
    unison: int,
) -> Seq<HostCmd> {
    let g = ParamAddr { node: gain_node, param: ParamKind::Gain };
    seq![
        HostCmd::Cancel { param: g },
        HostCmd::SetValue {
            param: g,
            value: scaled_peak_gain(max_gain as int, velocity as int, unison) as i64,
            at_ms: 0,
        },
        HostCmd::RampTo { param: g, target: 0, at_ms: crate::TIME_PADDING_MS },
        HostCmd::RampTo {
            param: g,
            target: 1000,
            at_ms: (crate::TIME_PADDING_MS + env.attack) as u64,
        },
        HostCmd::ApproachTarget {
            param: g,
            target: env.sustain,
            at_ms: (crate::TIME_PADDING_MS + env.attack) as u64,
            time_const_ms: (crate::TIME_PADDING_MS + env.decay) as u64,
        },
    ]
}

/// Amplitude-envelope release: cancel, anchor at the live value, then
/// approach silence exponentially with the release as time constant.
pub open spec fn amp_end_cmds(gain_node: NodeId, env: Envelope) -> Seq<HostCmd> {
    let g = ParamAddr { node: gain_node, param: ParamKind::Gain };
    seq![
        HostCmd::Cancel { param: g },
        HostCmd::SnapToCurrent { param: g },
        HostCmd::ApproachTarget {
            param: g,
            target: 0,
            at_ms: 0,
            time_const_ms: (crate::TIME_PADDING_MS + env.release) as u64,
        },
    ]
}

/// The sustain level, in thousandths of a detune cent, that the filter
/// envelope decays toward: the configured sustain interpolated between
/// the base cutoff's share of the ceiling and the ceiling itself. The
/// percent scaling is deliberate and part of the interface; callers
/// tune against exactly this curve.
pub open spec fn filter_sustain_target(sustain: int, freq: int) -> int {
    let cutoff_pct = freq * 100000 / 7200;
    let min_sustain = 72 * cutoff_pct;
    let prod = sustain * (7200000 - min_sustain);
    let q = if prod >= 0 {
        prod / 100000
    } else {
        -((-prod) / 100000)
    };
    q + min_sustain
}

/// Filter-envelope onset: cancel, anchor at the live detune, ramp
/// linearly to the ceiling over the attack, then decay toward the
/// sustain target.
pub open spec fn filter_start_cmds(filter_node: NodeId, env: Envelope, freq: u32) -> Seq<
    HostCmd,
> {
    let d = ParamAddr { node: filter_node, param: ParamKind::Detune };
    seq![
        HostCmd::Cancel { param: d },
        HostCmd::SnapToCurrent { param: d },
        HostCmd::RampTo {
            param: d,
            target: 7200000,
            at_ms: (crate::TIME_PADDING_MS + env.attack) as u64,
        },
        HostCmd::ApproachTarget {
            param: d,
            target: filter_sustain_target(env.sustain as int, freq as int) as i64,
            at_ms: (crate::TIME_PADDING_MS + env.attack) as u64,
            time_const_ms: (crate::TIME_PADDING_MS + env.decay) as u64,
        },
    ]
}

/// Filter-envelope release: cancel, anchor at the live detune, then
/// approach the configured base cutoff rather than zero, so the filter
/// comes to rest at a musically meaningful value.
pub open spec fn filter_end_cmds(filter_node: NodeId, env: Envelope, freq: u32) -> Seq<HostCmd> {
    let d = ParamAddr { node: filter_node, param: ParamKind::Detune };
    seq![
        HostCmd::Cancel { param: d },
        HostCmd::SnapToCurrent { param: d },
        HostCmd::ApproachTarget {
            param: d,
            target: (freq * 1000) as i64,
            at_ms: 0,
            time_const_ms: (crate::TIME_PADDING_MS + env.release) as u64,
        },
    ]
}

/// One frequency set per oscillator, scheduled one pad after now so the
/// change cannot race an envelope still settling.
pub open spec fn set_freq_cmds(oscs: Seq<NodeId>, freq: u64) -> Seq<HostCmd> {
    Seq::new(
        oscs.len(),
        |i: int| HostCmd::SetValue {
            param: ParamAddr { node: oscs[i], param: ParamKind::Frequency },
            value: freq as i64,
            at_ms: crate::TIME_PADDING_MS,
        },
    )
}

impl Voice {
    /// Structural soundness: at least one oscillator, one identity each.
    pub open spec fn wf(&self) -> bool {
        &&& self.unison >= 1
        &&& self.oscs@.len() == self.unison
    }

    /// Builds one voice: a filter feeding a muted gain stage, plus
    /// `unison` oscillators wired into the filter, each detuned half a
    /// cent more than the previous one.
    pub fn new(graph: &mut AudioGraph, unison: usize) -> (r: (Voice, Vec<HostCmd>))
        requires
            unison >= 1,
            old(graph).next_node + 2 + unison <= u64::MAX,
            500 * (unison - 1) <= i64::MAX,
        ensures
            r.0.wf(),
            r.0.unison == unison,
            r.0.filter == NodeId(old(graph).next_node),
            r.0.gain == NodeId((old(graph).next_node + 1) as u64),
            r.0.oscs@ == Seq::new(
                unison as nat,
                |i: int| NodeId((old(graph).next_node + 2 + i) as u64),
            ),
            final(graph).next_node == old(graph).next_node + 2 + unison,
            r.1@ == voice_setup_cmds(r.0.filter, r.0.gain, r.0.oscs@),
    {
        let ghost base = graph.next_node;
        let f = graph.fresh();
        let g = graph.fresh();
        let mut cmds: Vec<HostCmd> = Vec::new();
        cmds.push(HostCmd::CreateFilter { node: f });
        cmds.push(HostCmd::CreateGain { node: g });
        cmds.push(
            HostCmd::SetValue {
                param: ParamAddr { node: g, param: ParamKind::Gain },
                value: 0,
                at_ms: 0,
            },
        );
        cmds.push(HostCmd::Connect { from: f, to: g });
        let mut oscs: Vec<NodeId> = Vec::new();
        let mut i: usize = 0;
        proof {
            assert(cmds@ =~= voice_setup_head(f, g) + osc_setup_cmds(oscs@, f));
        }
        while i < unison
            invariant
                i <= unison,
                unison >= 1,
                500 * (unison - 1) <= i64::MAX,
                base + 2 + unison <= u64::MAX,
                graph.next_node == base + 2 + i,
                oscs@.len() == i,
                oscs@ == Seq::new(i as nat, |k: int| NodeId((base + 2 + k) as u64)),
                cmds@ == voice_setup_head(f, g) + osc_setup_cmds(oscs@, f),
            decreases unison - i,
        {
            let o = graph.fresh();
            let ghost oscs_pre = oscs@;
            oscs.push(o);
            cmds.push(HostCmd::CreateOscillator { node: o });
            cmds.push(
                HostCmd::SetValue {
                    param: ParamAddr { node: o, param: ParamKind::Detune },
                    value: 500 * (i as i64),
                    at_ms: 0,
                },
            );
            cmds.push(HostCmd::Connect { from: o, to: f });
            i = i + 1;
            proof {
                assert(oscs@.drop_last() =~= oscs_pre);
                assert(oscs@ =~= Seq::new(i as nat, |k: int| NodeId((base + 2 + k) as u64)));
                assert(cmds@ =~= voice_setup_head(f, g) + osc_setup_cmds(oscs@, f));
            }
        }
        let v = Voice { unison, oscs, gain: g, filter: f };
        (v, cmds)
    }

    /// Starts continuous generation on every oscillator of the cluster.
    pub fn start(&self) -> (cmds: Vec<HostCmd>)
        ensures
            cmds@ == Seq::new(self.oscs@.len(), |i: int| HostCmd::Start { node: self.oscs@[i] }),
    {
        let mut cmds: Vec<HostCmd> = Vec::new();
        let mut i: usize = 0;
        while i < self.oscs.len()
            invariant
                i <= self.oscs@.len(),
                cmds@ == Seq::new(i as nat, |k: int| HostCmd::Start { node: self.oscs@[k] }),
            decreases self.oscs@.len() - i,
        {
            cmds.push(HostCmd::Start { node: self.oscs[i] });
            i = i + 1;
            proof {
                assert(cmds@ =~= Seq::new(i as nat, |k: int| HostCmd::Start { node: self.oscs@[k] }));
            }
        }
        cmds
    }

    /// Ends continuous generation on every oscillator of the cluster.
    pub fn stop(&self) -> (cmds: Vec<HostCmd>)
        ensures
            cmds@ == Seq::new(self.oscs@.len(), |i: int| HostCmd::Stop { node: self.oscs@[i] }),
    {
        let mut cmds: Vec<HostCmd> = Vec::new();
        let mut i: usize = 0;
        while i < self.oscs.len()
            invariant
                i <= self.oscs@.len(),
                cmds@ == Seq::new(i as nat, |k: int| HostCmd::Stop { node: self.oscs@[k] }),
            decreases self.oscs@.len() - i,
        {
            cmds.push(HostCmd::Stop { node: self.oscs[i] });
            i = i + 1;
            proof {
                assert(cmds@ =~= Seq::new(i as nat, |k: int| HostCmd::Stop { node: self.oscs@[k] }));
            }
        }
        cmds
    }

    /// Applies one waveform shape uniformly across the cluster.
    pub fn set_waveform(&self, waveform: Waveform) -> (cmds: Vec<HostCmd>)
        ensures
            cmds@ == Seq::new(
                self.oscs@.len(),
                |i: int| HostCmd::SetWaveform { node: self.oscs@[i], waveform },
            ),
    {
        let mut cmds: Vec<HostCmd> = Vec::new();
        let mut i: usize = 0;
        while i < self.oscs.len()
            invariant
                i <= self.oscs@.len(),
                cmds@ == Seq::new(
                    i as nat,
                    |k: int| HostCmd::SetWaveform { node: self.oscs@[k], waveform },
                ),
            decreases self.oscs@.len() - i,
        {
            cmds.push(HostCmd::SetWaveform { node: self.oscs[i], waveform });
            i = i + 1;
            proof {
                assert(cmds@ =~= Seq::new(
                    i as nat,
                    |k: int| HostCmd::SetWaveform { node: self.oscs@[k], waveform },
                ));
            }
        }
        cmds
    }

    /// Moves this voice's filter cutoff, effective immediately.
    pub fn set_filter_frequency(&self, freq: u32) -> (c: HostCmd)
        ensures
            c == (HostCmd::SetValue {
                param: ParamAddr { node: self.filter, param: ParamKind::Frequency },
                value: (freq * 1000) as i64,
                at_ms: 0,
            }),
    {
        HostCmd::SetValue {
            param: ParamAddr { node: self.filter, param: ParamKind::Frequency },
            value: freq as i64 * 1000,
            at_ms: 0,
        }
    }

    /// Moves this voice's filter resonance, effective immediately.
    pub fn set_filter_resonance(&self, q: i64) -> (c: HostCmd)
        ensures
            c == (HostCmd::SetValue {
                param: ParamAddr { node: self.filter, param: ParamKind::QFactor },
                value: q,
                at_ms: 0,
            }),
    {
        HostCmd::SetValue {
            param: ParamAddr { node: self.filter, param: ParamKind::QFactor },
            value: q,
            at_ms: 0,
        }
    }

    /// Retunes every oscillator of the cluster to one frequency in
    /// millihertz, one pad after now.
    pub fn set_freq(&self, freq: u64) -> (cmds: Vec<HostCmd>)
        requires
            freq <= i64::MAX,
        ensures
            cmds@ == set_freq_cmds(self.oscs@, freq),
    {
        let mut cmds: Vec<HostCmd> = Vec::new();
        let mut i: usize = 0;
        while i < self.oscs.len()
            invariant
                i <= self.oscs@.len(),
                freq <= i64::MAX,
                cmds@ == set_freq_cmds(self.oscs@.take(i as int), freq),
            decreases self.oscs@.len() - i,
        {
            cmds.push(
                HostCmd::SetValue {
                    param: ParamAddr { node: self.oscs[i], param: ParamKind::Frequency },
                    value: freq as i64,
                    at_ms: crate::TIME_PADDING_MS,
                },
            );
            i = i + 1;
            proof {
                assert(cmds@ =~= set_freq_cmds(self.oscs@.take(i as int), freq));
            }
        }
        proof {
            assert(self.oscs@.take(self.oscs@.len() as int) =~= self.oscs@);
        }
        cmds
    }

    /// Schedules the amplitude-envelope onset for one note.
    pub fn amp_envelope_start(&self, env: &Envelope, max_gain: i64, velocity: u8) -> (cmds: Vec<
        HostCmd,
    >)
        requires
            self.wf(),
            0 <= max_gain,
            velocity as int * max_gain <= i64::MAX,
        ensures
            cmds@ == amp_start_cmds(self.gain, *env, max_gain, velocity, self.unison as int),
    {
        let g = ParamAddr { node: self.gain, param: ParamKind::Gain };
        let num: u64 = (velocity as u64) * (max_gain as u64);
        let scaled: i64 = ((num / 127) / (self.unison as u64)) as i64;
        let mut cmds: Vec<HostCmd> = Vec::new();
        cmds.push(HostCmd::Cancel { param: g });
        cmds.push(HostCmd::SetValue { param: g, value: scaled, at_ms: 0 });
        cmds.push(HostCmd::RampTo { param: g, target: 0, at_ms: crate::TIME_PADDING_MS });
        cmds.push(
            HostCmd::RampTo {
                param: g,
                target: 1000,
                at_ms: crate::TIME_PADDING_MS + env.attack as u64,
            },
        );
        cmds.push(
            HostCmd::ApproachTarget {
                param: g,
                target: env.sustain,
                at_ms: crate::TIME_PADDING_MS + env.attack as u64,
                time_const_ms: crate::TIME_PADDING_MS + env.decay as u64,
            },
        );
        proof {
            assert(scaled == scaled_peak_gain(max_gain as int, velocity as int, self.unison as int));
            assert(cmds@ =~= amp_start_cmds(self.gain, *env, max_gain, velocity, self.unison as int));
        }
        cmds
    }

    /// Schedules the amplitude-envelope release for one note.
    pub fn amp_envelope_end(&self, env: &Envelope) -> (cmds: Vec<HostCmd>)
        ensures
            cmds@ == amp_end_cmds(self.gain, *env),
    {
        let g = ParamAddr { node: self.gain, param: ParamKind::Gain };
        let mut cmds: Vec<HostCmd> = Vec::new();
        cmds.push(HostCmd::Cancel { param: g });
        cmds.push(HostCmd::SnapToCurrent { param: g });
        cmds.push(
            HostCmd::ApproachTarget {
                param: g,
                target: 0,
                at_ms: 0,
                time_const_ms: crate::TIME_PADDING_MS + env.release as u64,
            },
        );
        proof {
            assert(cmds@ =~= amp_end_cmds(self.gain, *env));
        }
        cmds
    }

    /// Schedules the filter-envelope onset for one note.
    pub fn filter_envelope_start(&self, env: &Envelope, filter_frequency: u32) -> (cmds: Vec<
        HostCmd,
    >)
        requires
            -2000000 <= env.sustain <= 2000000,
        ensures
            cmds@ == filter_start_cmds(self.filter, *env, filter_frequency),
    {
        let d = ParamAddr { node: self.filter, param: ParamKind::Detune };
        let cutoff_num: u64 = (filter_frequency as u64) * 100000;
        let cutoff_pct: u64 = cutoff_num / 7200;
        proof {
            vstd::arithmetic::div_mod::lemma_div_is_ordered(
                cutoff_num as int,
                429496729500000int,
                7200,
            );
        }
        let min_sustain: u64 = 72 * cutoff_pct;
        let sus_mag: u64 = if env.sustain >= 0 {
            env.sustain as u64
        } else {
            (-env.sustain) as u64
        };
        let mut prod_nonneg: bool = env.sustain >= 0;
        let mut prod_mag: u64 = 0;
        if min_sustain > 7200000 {
            let diff: u64 = min_sustain - 7200000;
            prod_nonneg = !prod_nonneg;
            proof {
                assert((sus_mag as int) * (diff as int) <= 2000000int * 4294967294952)
                    by (nonlinear_arith)
                    requires
                        sus_mag <= 2000000,
                        diff <= 4294967294952,
                ;
            }
            prod_mag = sus_mag * diff;
        } else {
            let diff: u64 = 7200000 - min_sustain;
            proof {
                assert((sus_mag as int) * (diff as int) <= 2000000int * 7200000)
                    by (nonlinear_arith)
                    requires
                        sus_mag <= 2000000,
                        diff <= 7200000,
                ;
            }
            prod_mag = sus_mag * diff;
        }
        let q_mag: u64 = prod_mag / 100000;
        proof {
            vstd::arithmetic::div_mod::lemma_div_is_ordered(
                prod_mag as int,
                2000000int * 4294967294952,
                100000,
            );
        }
        let q: i64 = if prod_nonneg {
            q_mag as i64
        } else {
            -(q_mag as i64)
        };
        proof {
            let s = env.sustain as int;
            let dif = 7200000 - min_sustain as int;
            let prod = s * dif;
            if min_sustain > 7200000 {
                if s >= 0 {
                    assert(prod == -((sus_mag as int) * ((min_sustain - 7200000) as int)))
                        by (nonlinear_arith)
                        requires
                            s == sus_mag as int,
                            dif == -((min_sustain - 7200000) as int),
                            prod == s * dif,
                    ;
                } else {
                    assert(prod == (sus_mag as int) * ((min_sustain - 7200000) as int))
                        by (nonlinear_arith)
                        requires
                            s == -(sus_mag as int),
                            dif == -((min_sustain - 7200000) as int),
                            prod == s * dif,
                    ;
                }
            } else {
                if s >= 0 {
                    assert(prod == (sus_mag as int) * ((7200000 - min_sustain) as int))
                        by (nonlinear_arith)
                        requires
                            s == sus_mag as int,
                            dif == (7200000 - min_sustain) as int,
                            prod == s * dif,
                    ;
                } else {
                    assert(prod == -((sus_mag as int) * ((7200000 - min_sustain) as int)))
                        by (nonlinear_arith)
                        requires
                            s == -(sus_mag as int),
                            dif == (7200000 - min_sustain) as int,
                            prod == s * dif,
                    ;
                }
            }
            assert(prod == if prod_nonneg {
                prod_mag as int
            } else {
                -(prod_mag as int)
            });
        }
        let target: i64 = q + (min_sustain as i64);
        let mut cmds: Vec<HostCmd> = Vec::new();
        cmds.push(HostCmd::Cancel { param: d });
        cmds.push(HostCmd::SnapToCurrent { param: d });
        cmds.push(
            HostCmd::RampTo {
                param: d,
                target: 7200000,
                at_ms: crate::TIME_PADDING_MS + env.attack as u64,
            },
        );
        cmds.push(
            HostCmd::ApproachTarget {
                param: d,
                target,
                at_ms: crate::TIME_PADDING_MS + env.attack as u64,
                time_const_ms: crate::TIME_PADDING_MS + env.decay as u64,
            },
        );
        proof {
            assert(target == filter_sustain_target(env.sustain as int, filter_frequency as int));
            assert(cmds@ =~= filter_start_cmds(self.filter, *env, filter_frequency));
        }
        cmds
    }

    /// Schedules the filter-envelope release for one note.
    pub fn filter_envelope_end(&self, env: &Envelope, filter_frequency: u32) -> (cmds: Vec<
        HostCmd,
    >)
        ensures
            cmds@ == filter_end_cmds(self.filter, *env, filter_frequency),
    {
        let d = ParamAddr { node: self.filter, param: ParamKind::Detune };
        let mut cmds: Vec<HostCmd> = Vec::new();
        cmds.push(HostCmd::Cancel { param: d });
        cmds.push(HostCmd::SnapToCurrent { param: d });
        cmds.push(
            HostCmd::ApproachTarget {
                param: d,
                target: filter_frequency as i64 * 1000,
                at_ms: 0,
                time_const_ms: crate::TIME_PADDING_MS + env.release as u64,
            },
        );
        proof {
            assert(cmds@ =~= filter_end_cmds(self.filter, *env, filter_frequency));
        }
        cmds
    }

    /// Wires the voice's gain stage into a downstream unit.
    pub fn connect_to_audio(&self, to: &NodeId) -> (c: HostCmd)
        ensures
            c == (HostCmd::Connect { from: self.gain, to: *to }),
    {
        HostCmd::Connect { from: self.gain, to: *to }
    }
}

impl AudioInput for Filter {
    open spec fn input_spec(&self) -> NodeId {
        self.node
    }

    fn input(&self) -> (n: NodeId) {
        self.node
    }
}

impl AudioOutput for Filter {
    open spec fn output_spec(&self) -> NodeId {
        self.node
    }

    fn output(&self) -> (n: NodeId) {
        self.node
    }
}

} // verus!
