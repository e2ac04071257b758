use player_controller::binding::Variant;
use player_controller::cursor::{CursorGrabState, Window, WindowError};
use player_controller::movement::{axis_step_of, integer_sqrt, player_move, HeldKeys, Movement};
use player_controller::settings::MovementSettings;

const NONE: HeldKeys =
    HeldKeys { forward: false, back: false, left: false, right: false, up: false, down: false };

fn locked() -> Option<Window> {
    Some(Window { width: 800, height: 600, grab: CursorGrabState::Locked })
}

fn released() -> Option<Window> {
    Some(Window { width: 800, height: 600, grab: CursorGrabState::Released })
}

fn settings() -> MovementSettings {
    MovementSettings::new(100, 1000).unwrap()
}

fn walk(keys: HeldKeys) -> Movement {
    player_move(locked(), &keys, &settings(), 1_000_000, Variant::Embodied).unwrap()
}

fn fly(keys: HeldKeys) -> Movement {
    player_move(locked(), &keys, &settings(), 1_000_000, Variant::FreeCamera).unwrap()
}

const STILL: Movement = Movement { right: 0, up: 0, forward: 0, step: 0 };

#[test]
fn half_a_second_forward_at_unit_speed_is_half_a_unit() {
    let keys = HeldKeys { forward: true, ..NONE };
    let movement = player_move(locked(), &keys, &settings(), 500_000, Variant::Embodied);
    assert_eq!(movement, Ok(Movement { right: 0, up: 0, forward: 1, step: 500_000_000 }));
    let movement = movement.unwrap();
    assert!(!movement.is_zero());
}

#[test]
fn each_key_moves_along_its_axis() {
    let one = 1_000_000_000;
    assert_eq!(
        walk(HeldKeys { forward: true, ..NONE }),
        Movement { right: 0, up: 0, forward: 1, step: one }
    );
    assert_eq!(
        walk(HeldKeys { back: true, ..NONE }),
        Movement { right: 0, up: 0, forward: -1, step: one }
    );
    assert_eq!(
        walk(HeldKeys { left: true, ..NONE }),
        Movement { right: -1, up: 0, forward: 0, step: one }
    );
    assert_eq!(
        walk(HeldKeys { right: true, ..NONE }),
        Movement { right: 1, up: 0, forward: 0, step: one }
    );
    assert_eq!(fly(HeldKeys { up: true, ..NONE }), Movement { right: 0, up: 1, forward: 0, step: one });
    assert_eq!(
        fly(HeldKeys { down: true, ..NONE }),
        Movement { right: 0, up: -1, forward: 0, step: one }
    );
}

#[test]
fn opposite_keys_cancel() {
    assert_eq!(walk(HeldKeys { forward: true, back: true, ..NONE }), STILL);
    assert_eq!(walk(HeldKeys { left: true, right: true, ..NONE }), STILL);
    assert_eq!(fly(HeldKeys { up: true, down: true, ..NONE }), STILL);
    assert!(walk(HeldKeys { forward: true, back: true, ..NONE }).is_zero());
    let all = HeldKeys { forward: true, back: true, left: true, right: true, up: true, down: true };
    assert_eq!(walk(all), STILL);
    assert_eq!(fly(all), STILL);
}

#[test]
fn opposite_keys_cancel_and_leave_the_other_axis() {
    assert_eq!(
        walk(HeldKeys { forward: true, back: true, right: true, ..NONE }),
        Movement { right: 1, up: 0, forward: 0, step: 1_000_000_000 }
    );
    assert_eq!(
        walk(HeldKeys { left: true, right: true, back: true, ..NONE }),
        Movement { right: 0, up: 0, forward: -1, step: 1_000_000_000 }
    );
}

#[test]
fn no_key_is_no_movement() {
    assert_eq!(walk(NONE), STILL);
    assert_eq!(fly(NONE), STILL);
    assert!(walk(NONE).is_zero());
}

#[test]
fn a_diagonal_is_as_long_as_a_straight_line() {
    let diagonal = walk(HeldKeys { forward: true, right: true, ..NONE });
    assert_eq!(diagonal, Movement { right: 1, up: 0, forward: 1, step: 707_106_781 });
    let other = walk(HeldKeys { back: true, left: true, ..NONE });
    assert_eq!(other, Movement { right: -1, up: 0, forward: -1, step: 707_106_781 });
    let space = fly(HeldKeys { forward: true, right: true, up: true, ..NONE });
    assert_eq!(space, Movement { right: 1, up: 1, forward: 1, step: 577_350_269 });
}

#[test]
fn a_body_on_the_ground_ignores_the_vertical_keys() {
    assert_eq!(walk(HeldKeys { up: true, ..NONE }), STILL);
    assert_eq!(walk(HeldKeys { down: true, ..NONE }), STILL);
    assert_eq!(
        walk(HeldKeys { up: true, forward: true, ..NONE }),
        Movement { right: 0, up: 0, forward: 1, step: 1_000_000_000 }
    );
    assert_eq!(
        fly(HeldKeys { up: true, forward: true, ..NONE }),
        Movement { right: 0, up: 1, forward: 1, step: 707_106_781 }
    );
}

#[test]
fn a_free_cursor_moves_nothing() {
    let all = HeldKeys { forward: true, back: false, left: true, right: false, up: true, down: false };
    assert_eq!(player_move(released(), &all, &settings(), 1_000_000, Variant::Embodied), Ok(STILL));
    assert_eq!(
        player_move(released(), &all, &settings(), 1_000_000, Variant::FreeCamera),
        Ok(STILL)
    );
}

#[test]
fn without_a_window_nothing_moves_and_the_error_says_so() {
    let keys = HeldKeys { forward: true, ..NONE };
    assert_eq!(
        player_move(None, &keys, &settings(), 1_000_000, Variant::Embodied),
        Err(WindowError::NoPrimaryWindow)
    );
    assert_eq!(
        player_move(None, &NONE, &settings(), 0, Variant::FreeCamera),
        Err(WindowError::NoPrimaryWindow)
    );
}

#[test]
fn no_time_is_no_movement() {
    let keys = HeldKeys { forward: true, ..NONE };
    let movement = player_move(locked(), &keys, &settings(), 0, Variant::Embodied).unwrap();
    assert_eq!(movement, Movement { right: 0, up: 0, forward: 1, step: 0 });
    assert!(movement.is_zero());
}

#[test]
fn the_default_speed_over_one_sixtieth_of_a_second() {
    let settings = MovementSettings::default();
    let forward = HeldKeys { forward: true, ..NONE };
    let diagonal = HeldKeys { forward: true, left: true, ..NONE };
    let straight = player_move(locked(), &forward, &settings, 16_667, Variant::Embodied).unwrap();
    assert_eq!(straight.step, 33_334_000);
    let across = player_move(locked(), &diagonal, &settings, 16_667, Variant::Embodied).unwrap();
    assert_eq!(across.step, 23_570_697);
}

#[test]
fn the_largest_speed_and_time_are_taken() {
    let settings = MovementSettings::new(1, i32::MAX).unwrap();
    let keys = HeldKeys { forward: true, right: true, up: true, ..NONE };
    assert_eq!(
        player_move(locked(), &keys, &settings, u32::MAX, Variant::FreeCamera),
        Ok(Movement { right: 1, up: 1, forward: 1, step: 5_325_116_324_594_620_914 })
    );
    assert_eq!(
        player_move(locked(), &keys, &settings, u32::MAX, Variant::Embodied),
        Ok(Movement { right: 1, up: 0, forward: 1, step: 6_521_908_908_110_890_356 })
    );
    let forward = HeldKeys { forward: true, ..NONE };
    assert_eq!(
        player_move(locked(), &forward, &settings, u32::MAX, Variant::Embodied).unwrap().step,
        9_223_372_030_412_324_865
    );
}

#[test]
fn zero_movement_is_zero() {
    assert_eq!(Movement::zero(), STILL);
    assert!(Movement::zero().is_zero());
    assert!(Movement { right: 1, up: 0, forward: 0, step: 0 }.is_zero());
    assert!(Movement { right: 0, up: 0, forward: 0, step: 9 }.is_zero());
    assert!(!Movement { right: 0, up: -1, forward: 0, step: 9 }.is_zero());
}

#[test]
fn square_roots_are_rounded_down() {
    assert_eq!(integer_sqrt(0), 0);
    assert_eq!(integer_sqrt(1), 1);
    assert_eq!(integer_sqrt(2), 1);
    assert_eq!(integer_sqrt(3), 1);
    assert_eq!(integer_sqrt(4), 2);
    assert_eq!(integer_sqrt(99), 9);
    assert_eq!(integer_sqrt(100), 10);
    assert_eq!(integer_sqrt(1u128 << 64), 4_294_967_296);
    assert_eq!(integer_sqrt((1u128 << 64) - 1), 4_294_967_295);
    assert_eq!(integer_sqrt(1_000_000_000_000_000_000_000_000_000_000), 1_000_000_000_000_000);
    assert_eq!(integer_sqrt(u128::MAX), u64::MAX);
}

#[test]
fn every_small_square_root_is_the_largest_whose_square_fits() {
    for value in 0u128..5000 {
        let root = integer_sqrt(value) as u128;
        assert!(root * root <= value);
        assert!(value < (root + 1) * (root + 1));
    }
}

#[test]
fn the_step_is_the_distance_over_the_root_of_the_weight() {
    assert_eq!(axis_step_of(0, 1_000_000_000), 0);
    assert_eq!(axis_step_of(1, 1_000_000_000), 1_000_000_000);
    assert_eq!(axis_step_of(2, 1_000_000_000), 707_106_781);
    assert_eq!(axis_step_of(3, 1_000_000_000), 577_350_269);
    assert_eq!(axis_step_of(4, 1_000_000_000), 500_000_000);
    assert_eq!(axis_step_of(2, 0), 0);
    assert_eq!(axis_step_of(2, 1), 0);
    assert_eq!(axis_step_of(2, 2), 1);
    assert_eq!(axis_step_of(1, u64::MAX), u64::MAX);
}
