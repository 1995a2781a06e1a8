use subjam::audio::connect;
use subjam::audio::connect_to_one;
use subjam::audio::AudioInputs;
use subjam::audio::AudioOutput;
use subjam::cv::Control;
use subjam::cv::GainControl;
use subjam::cv::MixControl;
use subjam::host::AudioGraph;
use subjam::host::FilterMode;
use subjam::host::HostCmd;
use subjam::host::NodeId;
use subjam::host::ParamKind;
use subjam::host::Waveform;
use subjam::synth::Channel;
use subjam::synth::Mixer;
use subjam::synth::Subjam;
use subjam::synth::LFO;
use subjam::voice::Filter;
use subjam::ProtocolError;

#[test]
fn filter_starts_as_stock_lowpass() {
    let mut g = AudioGraph::new();
    let (f, cmds) = Filter::new(&mut g);
    assert_eq!(f.frequency, 8000);
    assert_eq!(f.resonance, 0);
    assert_eq!(f.filter_type, FilterMode::Lowpass);
    assert_eq!(cmds.len(), 4);
    assert_eq!(cmds[0], HostCmd::CreateFilter { node: f.node });
    assert_eq!(cmds[1], HostCmd::SetFilterMode { node: f.node, mode: FilterMode::Lowpass });
}

#[test]
fn filter_setters_cache_and_command() {
    let mut g = AudioGraph::new();
    let (mut f, _) = Filter::new(&mut g);
    let c = f.set_frequency(2500);
    assert_eq!(f.frequency, 2500);
    match c {
        HostCmd::SetValue { value, .. } => assert_eq!(value, 2_500_000),
        _ => panic!("expected an immediate set"),
    }
    let c = f.set_resonance(750);
    assert_eq!(f.resonance, 750);
    let c2 = f.set_type(FilterMode::Highpass);
    assert_eq!(f.filter_type, FilterMode::Highpass);
    assert_eq!(c2, HostCmd::SetFilterMode { node: f.node, mode: FilterMode::Highpass });
    match c {
        HostCmd::SetValue { param, value, .. } => {
            assert_eq!(param.param, ParamKind::QFactor);
            assert_eq!(value, 750);
        },
        _ => panic!("expected an immediate set"),
    }
}

#[test]
fn connect_wires_output_to_input() {
    let mut g = AudioGraph::new();
    let (f, _) = Filter::new(&mut g);
    let (ch, _) = Channel::new(&mut g);
    let c = connect(&f, &ch);
    assert_eq!(c, HostCmd::Connect { from: f.node, to: ch.gain });
}

#[test]
fn connect_at_valid_index_succeeds() {
    let mut g = AudioGraph::new();
    let (m, _) = Mixer::new(&mut g, 3);
    let (ch, _) = Channel::new(&mut g);
    let inputs = m.inputs();
    let r = connect_to_one(&ch, &m, 1);
    assert_eq!(r, Ok(HostCmd::Connect { from: ch.output(), to: inputs[1] }));
}

#[test]
fn connect_at_out_of_range_fails_fast() {
    let mut g = AudioGraph::new();
    let (m, _) = Mixer::new(&mut g, 3);
    let (ch, _) = Channel::new(&mut g);
    assert_eq!(connect_to_one(&ch, &m, 3), Err(ProtocolError::InputIndexOutOfRange));
    assert_eq!(connect_to_one(&ch, &m, 99), Err(ProtocolError::InputIndexOutOfRange));
}

#[test]
fn mixer_builds_channels_and_levels() {
    let mut g = AudioGraph::new();
    let (m, cmds) = Mixer::new(&mut g, 2);
    assert_eq!(m.inputs().len(), 2);
    // master strip, two channel strips each wired in, the master raised
    // to nine tenths and both inputs to eight tenths
    assert_eq!(cmds.len(), 2 + 2 * 3 + 1 + 2);
    let c = m.set_gain(0, 650);
    match c {
        HostCmd::SetValue { value, .. } => assert_eq!(value, 650),
        _ => panic!("expected an immediate set"),
    }
    assert!(matches!(m.connect_to_speakers(), HostCmd::ConnectToDestination { .. }));
}

#[test]
fn lfo_reserves_an_oscillator() {
    let mut g = AudioGraph::new();
    let (_, cmds) = LFO::new(&mut g);
    assert_eq!(cmds, vec![HostCmd::CreateOscillator { node: NodeId(0) }]);
}

#[test]
fn subjam_builds_two_pools_with_stock_shapes() {
    let mut g = AudioGraph::new();
    let (s, cmds) = Subjam::new(&mut g);
    assert_eq!(s.get_osc1_type(), Waveform::Sawtooth);
    assert_eq!(s.get_osc2_type(), Waveform::Square);
    assert_eq!(s.get_filter_frequency(), 7200);
    assert_eq!(s.get_filter_resonance(), 0);
    assert_eq!(s.osc_mix, 500);
    assert!(cmds.len() > 0);
    // both pools blend evenly at the start
    assert_eq!(s.osc1.gain, 500);
    assert_eq!(s.osc2.gain, 500);
}

#[test]
fn subjam_note_cycle_drives_both_pools() {
    let mut g = AudioGraph::new();
    let (mut s, _) = Subjam::new(&mut g);
    let cmds = s.note_on(69, 127);
    assert_eq!(cmds.len(), 2 * (1 + 5 + 4));
    let released = s.note_off(69);
    assert!(released.is_ok());
    assert_eq!(released.unwrap().len(), 2 * (3 + 3));
    assert_eq!(s.note_off(69), Err(ProtocolError::NoteNotPlaying));
}

#[test]
fn subjam_setters_reach_both_pools() {
    let mut g = AudioGraph::new();
    let (mut s, _) = Subjam::new(&mut g);
    s.set_amp_attack(11);
    s.set_amp_sustain(222);
    s.set_filter_release(33);
    assert_eq!(s.get_osc1_amp_env().attack, 11);
    assert_eq!(s.get_osc2_amp_env().sustain, 222);
    assert_eq!(s.get_osc1_filter_env().release, 33);
    let cmds = s.set_filter_frequency(1800);
    assert_eq!(s.get_filter_frequency(), 1800);
    assert_eq!(cmds.len(), 32);
}

#[test]
fn osc_mix_complements_the_two_gains() {
    let mut g = AudioGraph::new();
    let (mut s, _) = Subjam::new(&mut g);
    s.set_osc_mix(300);
    assert_eq!(s.osc2.gain, 300);
    assert_eq!(s.osc1.gain, 700);
    // the complement saturates like any gain
    s.set_osc_mix(1500);
    assert_eq!(s.osc2.gain, 1000);
    assert_eq!(s.osc1.gain, 0);
}

#[test]
fn subjam_connects_to_a_mixer_strip() {
    let mut g = AudioGraph::new();
    let (s, _) = Subjam::new(&mut g);
    let (m, _) = Mixer::new(&mut g, 2);
    let r = s.connect_to_mixer(&m, 0);
    assert_eq!(r, Ok(HostCmd::Connect { from: s.out, to: m.inputs()[0] }));
    assert_eq!(s.connect_to_mixer(&m, 2), Err(ProtocolError::InputIndexOutOfRange));
}

#[test]
fn gain_control_holds_values_in_its_range() {
    let mut k = GainControl { node: NodeId(7), value: 0 };
    let r = GainControl::range();
    assert_eq!((r.start, r.end), (0, 1000));
    assert_eq!(GainControl::default_value(), 0);
    k.set(640);
    assert_eq!(k.get(), 640);
}

#[test]
fn mix_control_defaults_to_an_even_blend() {
    let mut k = MixControl { value: MixControl::default_value() };
    assert_eq!(k.get(), 500);
    let r = MixControl::range();
    assert_eq!((r.start, r.end), (0, 1000));
    k.set(250);
    assert_eq!(k.get(), 250);
}

#[test]
fn waveform_switch_reaches_every_voice_of_one_pool() {
    let mut g = AudioGraph::new();
    let (mut s, _) = Subjam::new(&mut g);
    let cmds = s.set_osc1_type(Waveform::Triangle);
    assert_eq!(s.get_osc1_type(), Waveform::Triangle);
    // sixteen voices of one oscillator each
    assert_eq!(cmds.len(), 16);
    assert!(cmds.iter().all(|c| matches!(
        c,
        HostCmd::SetWaveform { waveform: Waveform::Triangle, .. }
    )));
    // the second pool keeps its shape
    assert_eq!(s.get_osc2_type(), Waveform::Square);
    let cmds2 = s.set_osc2_type(Waveform::Sine);
    assert_eq!(s.get_osc2_type(), Waveform::Sine);
    assert_eq!(cmds2.len(), 16);
}
