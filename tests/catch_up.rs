use ink_stroke_modeler::catch_up::{CatchUp, CatchUpStep};

#[test]
fn decisions_follow_the_test_order() {
    let mut c = CatchUp::new(20);
    assert_eq!(c.record(false, true, false), CatchUpStep::Retry);
    assert_eq!(c.record(false, false, false), CatchUpStep::Emit);
    assert_eq!(c.emitted(), 1);
    assert!(c.active());
    assert_eq!(c.record(true, true, true), CatchUpStep::Stop);
    assert!(!c.active());
    assert_eq!(c.emitted(), 1);
}

#[test]
fn reaching_the_anchor_keeps_the_candidate_and_stops() {
    let mut c = CatchUp::new(20);
    assert_eq!(c.record(false, false, true), CatchUpStep::EmitAndStop);
    assert_eq!(c.emitted(), 1);
    assert!(!c.active());
}

#[test]
fn loop_ends_after_max_iterations() {
    let mut c = CatchUp::new(5);
    let mut steps = 0;
    while c.active() {
        c.record(false, false, false);
        steps += 1;
    }
    assert_eq!(steps, 5);
    assert_eq!(c.emitted(), 5);
}

#[test]
fn overshooting_forever_emits_nothing() {
    let mut c = CatchUp::new(7);
    let mut steps = 0;
    while c.active() {
        assert_eq!(c.record(false, true, false), CatchUpStep::Retry);
        steps += 1;
    }
    assert_eq!(steps, 7);
    assert_eq!(c.emitted(), 0);
}

#[test]
fn zero_iterations_never_start() {
    let c = CatchUp::new(0);
    assert!(!c.active());
    assert_eq!(c.emitted(), 0);
}
