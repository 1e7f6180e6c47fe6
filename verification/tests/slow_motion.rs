use juice::{SlowMotionClocks, SlowMotionControl, SlowMotionPhase};

#[test]
fn new_controller_is_idle() {
    let c = SlowMotionControl::new();
    assert_eq!(c.phase, SlowMotionPhase::Idle);
    assert!(!c.is_active);
    assert_eq!(SlowMotionPhase::default(), SlowMotionPhase::Idle);
}

#[test]
fn full_cycle_returns_to_idle() {
    let mut c = SlowMotionControl::new();
    assert_eq!(c.enter(), SlowMotionClocks { timer: true, active_timer: true });
    assert_eq!(c.phase, SlowMotionPhase::TransitionIn);
    assert!(c.is_active);

    // Not done yet: nothing moves.
    assert!(!c.update(false));
    assert_eq!(c.phase, SlowMotionPhase::TransitionIn);

    assert!(c.update(true));
    assert_eq!(c.phase, SlowMotionPhase::Active);
    assert!(c.is_active);

    assert!(c.update(true));
    assert_eq!(c.phase, SlowMotionPhase::TransitionOut);
    assert!(c.is_active);

    assert!(!c.update(true));
    assert_eq!(c.phase, SlowMotionPhase::Idle);
    assert!(!c.is_active);

    // Idle stays idle.
    assert!(!c.update(true));
    assert_eq!(c.phase, SlowMotionPhase::Idle);
}

#[test]
fn toggle_enters_then_exits() {
    let mut c = SlowMotionControl::new();
    assert_eq!(c.toggle(), (true, SlowMotionClocks { timer: true, active_timer: true }));
    assert_eq!(c.phase, SlowMotionPhase::TransitionIn);
    assert!(c.is_active);
    assert_eq!(c.toggle(), (false, SlowMotionClocks { timer: true, active_timer: false }));
    assert_eq!(c.phase, SlowMotionPhase::TransitionOut);
    assert!(c.is_active);
    c.update(true);
    assert_eq!(c.phase, SlowMotionPhase::Idle);
    assert!(!c.is_active);
}

#[test]
fn exit_while_idle_changes_nothing() {
    let mut c = SlowMotionControl::new();
    assert_eq!(c.exit(), SlowMotionClocks { timer: false, active_timer: false });
    assert_eq!(c.phase, SlowMotionPhase::Idle);
    assert!(!c.is_active);
}

#[test]
fn active_exactly_when_not_idle() {
    let mut c = SlowMotionControl::new();
    let check = |c: &SlowMotionControl| assert_eq!(c.is_active, c.phase != SlowMotionPhase::Idle);
    check(&c);
    c.enter();
    check(&c);
    c.update(true);
    check(&c);
    c.exit();
    check(&c);
    c.update(true);
    check(&c);
    c.exit();
    check(&c);
}

#[test]
fn enter_during_transition_out_restarts_easing_in() {
    let mut c = SlowMotionControl::new();
    c.enter();
    c.update(true);
    assert_eq!(c.exit(), SlowMotionClocks { timer: true, active_timer: false });
    c.enter();
    assert_eq!(c.phase, SlowMotionPhase::TransitionIn);
    assert!(c.is_active);
}
