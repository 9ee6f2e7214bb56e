use platformer::player::{player_movement, Impulse, PlayerInput, PlayerSettings};

fn keys(left: bool, right: bool, jump: bool) -> PlayerInput {
    PlayerInput { left, right, jump }
}

#[test]
fn default_player_settings() {
    let settings = PlayerSettings::default();
    assert_eq!(settings.speed, 1800);
    assert_eq!(settings.jump_impulse, 800);
}

#[test]
fn direction_of_the_keys() {
    assert_eq!(keys(false, false, false).direction(), 0);
    assert_eq!(keys(false, true, false).direction(), 1);
    assert_eq!(keys(true, false, false).direction(), -1);
    assert_eq!(keys(true, true, false).direction(), 0);
}

#[test]
fn right_key_pushes_right() {
    let settings = PlayerSettings::default();
    let impulse = player_movement(&settings, keys(false, true, false), 16);
    assert_eq!(impulse, Impulse { x: 28_800, y: 0 });
}

#[test]
fn left_key_pushes_left() {
    let settings = PlayerSettings::default();
    let impulse = player_movement(&settings, keys(true, false, false), 16);
    assert_eq!(impulse, Impulse { x: -28_800, y: 0 });
}

#[test]
fn opposite_keys_cancel() {
    let settings = PlayerSettings::default();
    let impulse = player_movement(&settings, keys(true, true, false), 16);
    assert_eq!(impulse, Impulse { x: 0, y: 0 });
}

#[test]
fn no_key_gives_no_impulse() {
    let settings = PlayerSettings::default();
    let impulse = player_movement(&settings, keys(false, false, false), 16);
    assert_eq!(impulse, Impulse { x: 0, y: 0 });
}

#[test]
fn jump_is_independent_of_the_direction_and_of_time() {
    let settings = PlayerSettings::default();
    assert_eq!(player_movement(&settings, keys(false, false, true), 16), Impulse { x: 0, y: 800 });
    assert_eq!(player_movement(&settings, keys(false, false, true), 0), Impulse { x: 0, y: 800 });
    assert_eq!(
        player_movement(&settings, keys(true, false, true), 2),
        Impulse { x: -3600, y: 800 }
    );
}

#[test]
fn nothing_is_carried_from_one_step_to_the_next() {
    let settings = PlayerSettings::default();
    let first = player_movement(&settings, keys(false, true, true), 10);
    assert_eq!(first, Impulse { x: 18_000, y: 800 });
    let second = player_movement(&settings, keys(false, false, false), 10);
    assert_eq!(second, Impulse { x: 0, y: 0 });
    let third = player_movement(&settings, keys(false, true, true), 10);
    assert_eq!(third, first);
}

#[test]
fn impulse_of_the_extreme_settings_is_exact() {
    let fast = PlayerSettings { speed: i32::MAX, jump_impulse: i32::MIN };
    let impulse = player_movement(&fast, keys(true, false, true), u32::MAX);
    assert_eq!(impulse.x, -(i32::MAX as i64 * u32::MAX as i64));
    assert_eq!(impulse.y, i32::MIN as i64);
    let backwards = PlayerSettings { speed: i32::MIN, jump_impulse: 0 };
    let pushed = player_movement(&backwards, keys(true, false, false), u32::MAX);
    assert_eq!(pushed.x, -(i32::MIN as i64 * u32::MAX as i64));
}
