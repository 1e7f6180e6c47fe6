use juice::{noise_bits, GhostCursor, SquashAxis};

#[test]
fn ghost_cursor_starts_unset_and_resets_to_zero() {
    let mut c = GhostCursor::new();
    assert_eq!(c.next, usize::MAX);
    c.reset();
    assert_eq!(c.next, 0);
}

#[test]
fn ghost_slots_rotate_round_robin() {
    let mut c = GhostCursor::new();
    c.reset();
    let taken: Vec<usize> = (0..7).map(|_| c.take_slot(3)).collect();
    assert_eq!(taken, vec![0, 1, 2, 0, 1, 2, 0]);
    assert_eq!(c.next, 1);
}

#[test]
fn ghost_slot_before_reset_wraps_from_max() {
    let mut c = GhostCursor::new();
    // usize::MAX % 4 == 3 on every pointer width.
    assert_eq!(c.take_slot(4), 3);
    assert_eq!(c.take_slot(4), 0);
}

#[test]
fn ghost_slot_follows_shrinking_slot_count() {
    let mut c = GhostCursor::new();
    c.reset();
    c.take_slot(5);
    c.take_slot(5);
    c.take_slot(5);
    // next is 3; with only 2 slots left the spawn wraps to slot 1.
    assert_eq!(c.take_slot(2), 1);
    assert_eq!(c.next, 2);
}

#[test]
fn noise_bits_exact_values() {
    assert_eq!(noise_bits(0, 0), 0);
    assert_eq!(noise_bits(1, 0), 2483102078);
    assert_eq!(noise_bits(0, 1), 2483102078);
    assert_eq!(noise_bits(42, 1500), 4271780907);
    assert_eq!(noise_bits(137, 1500), 2484438828);
    assert_eq!(noise_bits(100, 250), 497449308);
    // The seed and the sample add with wrap-around.
    assert_eq!(noise_bits(u32::MAX, 1), 0);
}

#[test]
fn squash_axis_places_main_value() {
    assert_eq!(SquashAxis::X.arrange(2.0f32, 0.5), (2.0, 0.5, 0.5));
    assert_eq!(SquashAxis::Y.arrange(2.0f32, 0.5), (0.5, 2.0, 0.5));
    assert_eq!(SquashAxis::Z.arrange(2.0f32, 0.5), (0.5, 0.5, 2.0));
    assert_eq!(SquashAxis::default(), SquashAxis::Y);
}

#[test]
fn trail_points_stop_at_the_cap() {
    let mut points: Vec<u32> = Vec::new();
    assert!(juice::push_capped(&mut points, 1, 2));
    assert!(juice::push_capped(&mut points, 2, 2));
    assert!(!juice::push_capped(&mut points, 3, 2));
    assert_eq!(points, vec![1, 2]);

    // A zero cap never records a point.
    let mut none: Vec<u32> = Vec::new();
    assert!(!juice::push_capped(&mut none, 7, 0));
    assert!(none.is_empty());
}
