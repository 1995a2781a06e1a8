use subjam::host::AudioGraph;
use subjam::host::HostCmd;
use subjam::host::NodeId;
use subjam::host::ParamAddr;
use subjam::host::ParamKind;
use subjam::midi_to_freq;
use subjam::osc::Oscillator;
use subjam::voice::Voice;
use subjam::default_envelope;
use subjam::ProtocolError;

fn gain_param(node: NodeId) -> ParamAddr {
    ParamAddr { node, param: ParamKind::Gain }
}

fn detune_param(node: NodeId) -> ParamAddr {
    ParamAddr { node, param: ParamKind::Detune }
}

#[test]
fn voice_setup_creates_filter_gain_and_oscillators() {
    let mut g = AudioGraph::new();
    let (v, cmds) = Voice::new(&mut g, 2);
    assert_eq!(v.unison, 2);
    assert_eq!(v.filter, NodeId(0));
    assert_eq!(v.gain, NodeId(1));
    assert_eq!(v.oscs, vec![NodeId(2), NodeId(3)]);
    assert_eq!(
        cmds,
        vec![
            HostCmd::CreateFilter { node: NodeId(0) },
            HostCmd::CreateGain { node: NodeId(1) },
            HostCmd::SetValue { param: gain_param(NodeId(1)), value: 0, at_ms: 0 },
            HostCmd::Connect { from: NodeId(0), to: NodeId(1) },
            HostCmd::CreateOscillator { node: NodeId(2) },
            HostCmd::SetValue { param: detune_param(NodeId(2)), value: 0, at_ms: 0 },
            HostCmd::Connect { from: NodeId(2), to: NodeId(0) },
            HostCmd::CreateOscillator { node: NodeId(3) },
            HostCmd::SetValue { param: detune_param(NodeId(3)), value: 500, at_ms: 0 },
            HostCmd::Connect { from: NodeId(3), to: NodeId(0) },
        ],
    );
}

#[test]
fn amp_envelope_start_schedules_all_phases() {
    let mut g = AudioGraph::new();
    let (v, _) = Voice::new(&mut g, 1);
    let env = default_envelope();
    let cmds = v.amp_envelope_start(&env, 900, 127);
    let p = gain_param(v.gain);
    assert_eq!(
        cmds,
        vec![
            HostCmd::Cancel { param: p },
            HostCmd::SetValue { param: p, value: 900, at_ms: 0 },
            HostCmd::RampTo { param: p, target: 0, at_ms: 3 },
            HostCmd::RampTo { param: p, target: 1000, at_ms: 33 },
            HostCmd::ApproachTarget { param: p, target: 1000, at_ms: 33, time_const_ms: 303 },
        ],
    );
}

#[test]
fn amp_peak_scales_with_velocity_and_unison() {
    let mut g = AudioGraph::new();
    let (v, _) = Voice::new(&mut g, 2);
    let env = default_envelope();
    // velocity 63 out of 127, gain 800, split across two oscillators
    let cmds = v.amp_envelope_start(&env, 800, 63);
    match cmds[1] {
        HostCmd::SetValue { value, .. } => assert_eq!(value, 63 * 800 / 127 / 2),
        _ => panic!("expected the velocity-scaled anchor"),
    }
}

#[test]
fn amp_envelope_end_releases_toward_silence() {
    let mut g = AudioGraph::new();
    let (v, _) = Voice::new(&mut g, 1);
    let env = default_envelope();
    let cmds = v.amp_envelope_end(&env);
    let p = gain_param(v.gain);
    assert_eq!(
        cmds,
        vec![
            HostCmd::Cancel { param: p },
            HostCmd::SnapToCurrent { param: p },
            HostCmd::ApproachTarget { param: p, target: 0, at_ms: 0, time_const_ms: 803 },
        ],
    );
}

#[test]
fn filter_envelope_sustain_target_formula() {
    // base cutoff 3600 Hz against the 7200 Hz ceiling at full sustain:
    // the interpolation lands at 3636 exactly.
    let mut g = AudioGraph::new();
    let (v, _) = Voice::new(&mut g, 1);
    let env = default_envelope();
    let cmds = v.filter_envelope_start(&env, 3600);
    let d = detune_param(v.filter);
    assert_eq!(
        cmds,
        vec![
            HostCmd::Cancel { param: d },
            HostCmd::SnapToCurrent { param: d },
            HostCmd::RampTo { param: d, target: 7_200_000, at_ms: 33 },
            HostCmd::ApproachTarget {
                param: d,
                target: 3_636_000,
                at_ms: 33,
                time_const_ms: 303,
            },
        ],
    );
}

#[test]
fn filter_envelope_end_returns_to_base_cutoff() {
    let mut g = AudioGraph::new();
    let (v, _) = Voice::new(&mut g, 1);
    let env = default_envelope();
    let cmds = v.filter_envelope_end(&env, 3600);
    let d = detune_param(v.filter);
    assert_eq!(
        cmds,
        vec![
            HostCmd::Cancel { param: d },
            HostCmd::SnapToCurrent { param: d },
            HostCmd::ApproachTarget {
                param: d,
                target: 3_600_000,
                at_ms: 0,
                time_const_ms: 803,
            },
        ],
    );
}

#[test]
fn set_freq_pads_the_schedule() {
    let mut g = AudioGraph::new();
    let (v, _) = Voice::new(&mut g, 2);
    let cmds = v.set_freq(440_000);
    assert_eq!(cmds.len(), 2);
    for (i, c) in cmds.iter().enumerate() {
        assert_eq!(
            *c,
            HostCmd::SetValue {
                param: ParamAddr { node: v.oscs[i], param: ParamKind::Frequency },
                value: 440_000,
                at_ms: 3,
            },
        );
    }
}

#[test]
fn allocation_gives_distinct_voices_while_pool_lasts() {
    let mut g = AudioGraph::new();
    let (mut o, _) = Oscillator::new(&mut g, 4, 1, 7200, 0);
    let mut used = Vec::new();
    for note in [60u8, 61, 62, 63] {
        let v = o.get_voice();
        assert!(v < 4);
        assert!(!used.contains(&v));
        used.push(v);
        o.note_on(note, 100);
    }
    assert_eq!(used, vec![0, 1, 2, 3]);
}

#[test]
fn overflow_steals_round_robin_successor() {
    let mut g = AudioGraph::new();
    let (mut o, _) = Oscillator::new(&mut g, 3, 1, 7200, 0);
    o.note_on(60, 100);
    o.note_on(61, 100);
    o.note_on(62, 100);
    // all three voices held, last allocation was voice 2: the scan
    // degenerates to its starting candidate, voice 0
    assert_eq!(o.get_voice(), 0);
    o.note_on(63, 100);
    // the dispossessed note is gone; releasing it is a protocol violation
    assert_eq!(o.note_off(60), Err(ProtocolError::NoteNotPlaying));
    // the thief can be released
    assert!(o.note_off(63).is_ok());
}

#[test]
fn note_off_without_note_on_fails_fatally() {
    let mut g = AudioGraph::new();
    let (mut o, _) = Oscillator::new(&mut g, 2, 1, 7200, 0);
    assert_eq!(o.note_off(60), Err(ProtocolError::NoteNotPlaying));
    o.note_on(60, 90);
    assert!(o.note_off(60).is_ok());
    // releasing twice is as fatal as never starting
    assert_eq!(o.note_off(60), Err(ProtocolError::NoteNotPlaying));
}

#[test]
fn retrigger_of_held_note_moves_it_to_a_new_voice() {
    let mut g = AudioGraph::new();
    let (mut o, _) = Oscillator::new(&mut g, 4, 1, 7200, 0);
    o.note_on(60, 100);
    o.note_on(60, 100);
    // still only one place sounds the note, so one release succeeds and
    // the next fails
    assert!(o.note_off(60).is_ok());
    assert_eq!(o.note_off(60), Err(ProtocolError::NoteNotPlaying));
}

#[test]
fn note_on_retunes_and_starts_both_envelopes() {
    let mut g = AudioGraph::new();
    let (mut o, _) = Oscillator::new(&mut g, 2, 1, 3600, 0);
    let cmds = o.note_on(69, 127);
    // one retune per oscillator of the voice, five amplitude commands,
    // four filter commands
    assert_eq!(cmds.len(), 1 + 5 + 4);
    match cmds[0] {
        HostCmd::SetValue { value, at_ms, .. } => {
            assert_eq!(value, midi_to_freq(69) as i64);
            assert_eq!(at_ms, 3);
        },
        _ => panic!("expected the retune first"),
    }
}

#[test]
fn gain_saturates_into_unit_range() {
    let mut g = AudioGraph::new();
    let (mut o, _) = Oscillator::new(&mut g, 2, 1, 7200, 0);
    o.set_gain(1500);
    assert_eq!(o.gain, 1000);
    o.set_gain(-5);
    assert_eq!(o.gain, 0);
    o.set_gain(437);
    assert_eq!(o.gain, 437);
    o.set_gain(1000);
    assert_eq!(o.gain, 1000);
    o.set_gain(0);
    assert_eq!(o.gain, 0);
}

#[test]
fn envelope_setters_store_fields() {
    let mut g = AudioGraph::new();
    let (mut o, _) = Oscillator::new(&mut g, 2, 1, 7200, 0);
    o.set_amp_attack(5);
    o.set_amp_decay(6);
    o.set_amp_sustain(7);
    o.set_amp_release(8);
    assert_eq!(o.amp_env.adsr(), (5, 6, 7, 8));
    o.set_filter_attack(9);
    o.set_filter_decay(10);
    o.set_filter_sustain(-11);
    o.set_filter_release(12);
    assert_eq!(o.filter_env.adsr(), (9, 10, -11, 12));
}

#[test]
fn pool_setters_touch_every_voice() {
    let mut g = AudioGraph::new();
    let (mut o, _) = Oscillator::new(&mut g, 3, 1, 7200, 0);
    let cmds = o.set_filter_frequency(1234);
    assert_eq!(o.filter_frequency, 1234);
    assert_eq!(cmds.len(), 3);
    for c in &cmds {
        match c {
            HostCmd::SetValue { param, value, at_ms } => {
                assert_eq!(param.param, ParamKind::Frequency);
                assert_eq!(*value, 1_234_000);
                assert_eq!(*at_ms, 0);
            },
            _ => panic!("expected immediate cutoff moves"),
        }
    }
    let qs = o.set_filter_resonance(250);
    assert_eq!(o.filter_resonance, 250);
    assert_eq!(qs.len(), 3);
}

#[test]
fn transport_commands_cover_every_oscillator() {
    let mut g = AudioGraph::new();
    let (o, _) = Oscillator::new(&mut g, 2, 3, 7200, 0);
    let on = o.on();
    let off = o.off();
    assert_eq!(on.len(), 6);
    assert_eq!(off.len(), 6);
    assert!(on.iter().all(|c| matches!(c, HostCmd::Start { .. })));
    assert!(off.iter().all(|c| matches!(c, HostCmd::Stop { .. })));
}
