use subjam::bus::EventBus;
use subjam::ProtocolError;

#[test]
fn value_before_any_register_is_zero() {
    let b = EventBus::new();
    assert_eq!(b.value(String::from("cutoff")), 0);
    assert_eq!(b.value(String::from("")), 0);
}

#[test]
fn register_then_value_returns_initial() {
    let mut b = EventBus::new();
    assert!(b.control(String::from("cutoff"), 3_600).is_ok());
    assert_eq!(b.value(String::from("cutoff")), 3_600);
    // other ids stay unknown
    assert_eq!(b.value(String::from("resonance")), 0);
}

#[test]
fn duplicate_register_fails_fatally_and_changes_nothing() {
    let mut b = EventBus::new();
    assert!(b.control(String::from("cutoff"), 10).is_ok());
    let r = b.control(String::from("cutoff"), 99);
    assert_eq!(r, Err(ProtocolError::DuplicateControl));
    assert_eq!(b.value(String::from("cutoff")), 10);
}

#[test]
fn trigger_updates_value_and_reports_invocation() {
    let mut b = EventBus::new();
    b.control(String::from("gain"), 0).unwrap();
    let out = b.trigger(String::from("gain"), 321);
    assert_eq!(b.value(String::from("gain")), 321);
    assert_eq!(out, vec![(String::from("gain"), 321)]);
}

#[test]
fn trigger_propagates_through_modulation_edge() {
    let mut b = EventBus::new();
    b.control(String::from("wobble"), 0).unwrap();
    b.control(String::from("cutoff"), 500).unwrap();
    b.modulate(String::from("wobble"), String::from("cutoff"));
    let out = b.trigger(String::from("wobble"), 777);
    assert_eq!(b.value(String::from("wobble")), 777);
    assert_eq!(b.value(String::from("cutoff")), 777);
    assert_eq!(out, vec![(String::from("wobble"), 777), (String::from("cutoff"), 777)]);
}

#[test]
fn trigger_follows_chains_depth_first() {
    let mut b = EventBus::new();
    b.control(String::from("a"), 0).unwrap();
    b.control(String::from("b"), 0).unwrap();
    b.control(String::from("c"), 0).unwrap();
    b.modulate(String::from("a"), String::from("b"));
    b.modulate(String::from("b"), String::from("c"));
    let out = b.trigger(String::from("a"), 5);
    assert_eq!(b.value(String::from("a")), 5);
    assert_eq!(b.value(String::from("b")), 5);
    assert_eq!(b.value(String::from("c")), 5);
    assert_eq!(
        out,
        vec![(String::from("a"), 5), (String::from("b"), 5), (String::from("c"), 5)],
    );
}

#[test]
fn unregistered_source_still_reaches_registered_target() {
    let mut b = EventBus::new();
    b.control(String::from("b"), 0).unwrap();
    b.modulate(String::from("a"), String::from("b"));
    let out = b.trigger(String::from("a"), 5);
    // the unregistered source gets no invocation and no cache entry
    assert_eq!(out, vec![(String::from("b"), 5)]);
    assert_eq!(b.value(String::from("a")), 0);
    assert_eq!(b.value(String::from("b")), 5);
}

#[test]
fn unregistered_target_gets_no_invocation_and_no_value() {
    let mut b = EventBus::new();
    b.control(String::from("a"), 0).unwrap();
    b.modulate(String::from("a"), String::from("ghostly"));
    let out = b.trigger(String::from("a"), 9);
    assert_eq!(out, vec![(String::from("a"), 9)]);
    assert_eq!(b.value(String::from("ghostly")), 0);
}

#[test]
fn fan_out_reaches_every_target() {
    let mut b = EventBus::new();
    b.control(String::from("lfo"), 0).unwrap();
    b.control(String::from("pitch"), 0).unwrap();
    b.control(String::from("cutoff"), 0).unwrap();
    b.modulate(String::from("lfo"), String::from("pitch"));
    b.modulate(String::from("lfo"), String::from("cutoff"));
    let out = b.trigger(String::from("lfo"), 42);
    assert_eq!(b.value(String::from("pitch")), 42);
    assert_eq!(b.value(String::from("cutoff")), 42);
    // fan-out visits the targets in the order they were recorded
    assert_eq!(
        out,
        vec![
            (String::from("lfo"), 42),
            (String::from("pitch"), 42),
            (String::from("cutoff"), 42),
        ],
    );
}

#[test]
fn cyclic_modulation_terminates() {
    let mut b = EventBus::new();
    b.control(String::from("x"), 0).unwrap();
    b.control(String::from("y"), 0).unwrap();
    b.modulate(String::from("x"), String::from("y"));
    b.modulate(String::from("y"), String::from("x"));
    let out = b.trigger(String::from("x"), 1);
    assert_eq!(b.value(String::from("x")), 1);
    assert_eq!(b.value(String::from("y")), 1);
    assert!(out.len() >= 2);
}

#[test]
fn retrigger_overwrites_cached_value() {
    let mut b = EventBus::new();
    b.control(String::from("gain"), 100).unwrap();
    b.trigger(String::from("gain"), 200);
    b.trigger(String::from("gain"), 300);
    assert_eq!(b.value(String::from("gain")), 300);
}

#[test]
fn diamond_invokes_shared_target_once_per_in_edge() {
    let mut b = EventBus::new();
    b.control(String::from("a"), 0).unwrap();
    b.control(String::from("b"), 0).unwrap();
    b.control(String::from("c"), 0).unwrap();
    b.control(String::from("d"), 0).unwrap();
    b.modulate(String::from("a"), String::from("b"));
    b.modulate(String::from("a"), String::from("c"));
    b.modulate(String::from("b"), String::from("d"));
    b.modulate(String::from("c"), String::from("d"));
    let out = b.trigger(String::from("a"), 4);
    // depth first in recorded order; the shared target is reached along
    // both in-edges, once per edge
    assert_eq!(
        out,
        vec![
            (String::from("a"), 4),
            (String::from("b"), 4),
            (String::from("d"), 4),
            (String::from("c"), 4),
            (String::from("d"), 4),
        ],
    );
    assert_eq!(b.value(String::from("d")), 4);
}

#[test]
fn trigger_reports_the_root_first() {
    let mut b = EventBus::new();
    b.control(String::from("root"), 0).unwrap();
    b.control(String::from("leaf"), 0).unwrap();
    b.modulate(String::from("root"), String::from("leaf"));
    let out = b.trigger(String::from("root"), 9);
    assert_eq!(out[0], (String::from("root"), 9));
    // the root is visited exactly once on a graph with no edge back to it
    assert_eq!(out.iter().filter(|p| p.0 == "root").count(), 1);
}
