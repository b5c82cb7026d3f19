use tourmaworld::input::InputSnapshot;
use tourmaworld::movement::horizontal_axis;
use tourmaworld::movement::tick_velocity;
use tourmaworld::movement::Velocity;

#[test]
fn axis_resolves_each_combination() {
    assert_eq!(horizontal_axis(false, false), 0);
    assert_eq!(horizontal_axis(true, false), -1);
    assert_eq!(horizontal_axis(false, true), 1);
    assert_eq!(horizontal_axis(true, true), 0);
}

#[test]
fn idle_tick_applies_fall_decay() {
    let input = InputSnapshot::released();
    let next = tick_velocity(Velocity::zero(), &input, 1000);
    assert_eq!(next, Velocity { x: 0, y: -100_000 });
}

#[test]
fn right_tick_reaches_cap_in_one_step() {
    let mut input = InputSnapshot::released();
    input.key_d = true;
    let next = tick_velocity(Velocity::zero(), &input, 1000);
    assert_eq!(next, Velocity { x: 150_000, y: -100_000 });
}

#[test]
fn saturated_cap_is_idempotent() {
    let mut input = InputSnapshot::released();
    input.key_d = true;
    let first = tick_velocity(Velocity::zero(), &input, 1000);
    let second = tick_velocity(first, &input, 1000);
    assert_eq!(second.x, 150_000);
}

#[test]
fn negative_velocity_is_never_clamped() {
    let input = InputSnapshot::released();
    let next = tick_velocity(Velocity { x: -500_000, y: 0 }, &input, 100);
    assert_eq!(next.x, -500_000);
    assert_eq!(next.y, -10_000);
}

#[test]
fn cap_holds_from_any_start() {
    let mut right = InputSnapshot::released();
    right.key_d = true;
    let nudged = tick_velocity(Velocity { x: 140_000, y: 0 }, &right, 1000);
    assert_eq!(nudged.x, 150_000);

    let idle = InputSnapshot::released();
    let over = tick_velocity(Velocity { x: 1_000_000, y: 0 }, &idle, 0);
    assert_eq!(over.x, 150_000);
}

#[test]
fn left_and_right_cancel_exactly() {
    let mut both = InputSnapshot::released();
    both.key_a = true;
    both.key_d = true;
    let next = tick_velocity(Velocity { x: 7_000, y: 0 }, &both, 1000);
    assert_eq!(next.x, 7_000);
}

#[test]
fn up_sets_jump_speed_exactly() {
    let mut up = InputSnapshot::released();
    up.key_w = true;
    let next = tick_velocity(Velocity { x: 3_000, y: -250_000 }, &up, 777);
    assert_eq!(next.y, 50_000);
}

#[test]
fn up_arrow_binding_also_jumps() {
    let mut up = InputSnapshot::released();
    up.key_up_arrow = true;
    let next = tick_velocity(Velocity { x: 0, y: 12_345 }, &up, 3);
    assert_eq!(next.y, 50_000);
}

#[test]
fn no_up_decays_across_consecutive_ticks() {
    let input = InputSnapshot::released();
    let first = tick_velocity(Velocity::zero(), &input, 500);
    assert_eq!(first.y, -50_000);
    let second = tick_velocity(first, &input, 500);
    assert_eq!(second.y, -100_000);
    assert!(second.y < first.y && first.y < 0);
}

#[test]
fn down_key_has_no_effect() {
    let mut down = InputSnapshot::released();
    down.key_s = true;
    down.key_down_arrow = true;
    let from_down = tick_velocity(Velocity { x: 2_000, y: 9_000 }, &down, 250);
    let from_idle = tick_velocity(Velocity { x: 2_000, y: 9_000 }, &InputSnapshot::released(), 250);
    assert_eq!(from_down, from_idle);
}

#[test]
fn zero_delta_moves_nothing() {
    let mut left = InputSnapshot::released();
    left.key_left_arrow = true;
    let next = tick_velocity(Velocity { x: 4_000, y: -8_000 }, &left, 0);
    assert_eq!(next, Velocity { x: 4_000, y: -8_000 });
}

#[test]
fn alternate_bindings_match_letter_keys() {
    let mut arrows = InputSnapshot::released();
    arrows.key_left_arrow = true;
    assert!(arrows.left_held());
    let mut letters = InputSnapshot::released();
    letters.key_a = true;
    assert!(letters.left_held());
    assert!(!InputSnapshot::released().left_held());
    assert_eq!(
        tick_velocity(Velocity::zero(), &arrows, 200),
        tick_velocity(Velocity::zero(), &letters, 200)
    );
}
