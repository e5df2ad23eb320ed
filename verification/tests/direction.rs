use dodge_fireball::{resolve_keyboard_direction, KeySnapshot, PlayerDirection, Vec2I};

fn keys(left: bool, right: bool, up: bool, down: bool) -> KeySnapshot {
    KeySnapshot { left, right, up, down }
}

#[test]
fn every_direction_round_trips() {
    let all = [
        PlayerDirection::Up,
        PlayerDirection::Down,
        PlayerDirection::Left,
        PlayerDirection::Right,
        PlayerDirection::UpRight,
        PlayerDirection::UpLeft,
        PlayerDirection::DownRight,
        PlayerDirection::DownLeft,
    ];
    for d in all {
        let v = d.to_offset();
        assert_eq!(PlayerDirection::from_offset(v), d);
    }
}

#[test]
fn offsets_are_axis_signs() {
    assert_eq!(PlayerDirection::Up.to_offset(), Vec2I { x: 0, y: 1 });
    assert_eq!(PlayerDirection::Down.to_offset(), Vec2I { x: 0, y: -1 });
    assert_eq!(PlayerDirection::Left.to_offset(), Vec2I { x: -1, y: 0 });
    assert_eq!(PlayerDirection::Right.to_offset(), Vec2I { x: 1, y: 0 });
    assert_eq!(PlayerDirection::UpLeft.to_offset(), Vec2I { x: -1, y: 1 });
    assert_eq!(PlayerDirection::DownRight.to_offset(), Vec2I { x: 1, y: -1 });
}

#[test]
fn scaled_rays_resolve_like_unit_offsets() {
    assert_eq!(
        PlayerDirection::from_offset(Vec2I { x: 0, y: 250 }),
        PlayerDirection::Up
    );
    assert_eq!(
        PlayerDirection::from_offset(Vec2I { x: -70, y: -70 }),
        PlayerDirection::DownLeft
    );
    assert_eq!(
        PlayerDirection::from_offset(Vec2I { x: 100, y: -100 }),
        PlayerDirection::DownRight
    );
}

#[test]
fn zero_vector_fails_closed_to_down() {
    assert_eq!(
        PlayerDirection::from_offset(Vec2I { x: 0, y: 0 }),
        PlayerDirection::Down
    );
}

#[test]
fn off_ray_vector_falls_back_to_down() {
    assert_eq!(
        PlayerDirection::from_offset(Vec2I { x: 1, y: 2 }),
        PlayerDirection::Down
    );
}

#[test]
fn keyboard_priority_diagonals_first() {
    assert_eq!(
        resolve_keyboard_direction(keys(true, false, false, true)),
        Some(PlayerDirection::DownLeft)
    );
    assert_eq!(
        resolve_keyboard_direction(keys(true, false, true, false)),
        Some(PlayerDirection::UpLeft)
    );
    assert_eq!(
        resolve_keyboard_direction(keys(false, true, false, true)),
        Some(PlayerDirection::DownRight)
    );
    assert_eq!(
        resolve_keyboard_direction(keys(false, true, true, false)),
        Some(PlayerDirection::UpRight)
    );
}

#[test]
fn keyboard_pure_directions() {
    assert_eq!(
        resolve_keyboard_direction(keys(true, false, false, false)),
        Some(PlayerDirection::Left)
    );
    assert_eq!(
        resolve_keyboard_direction(keys(false, true, false, false)),
        Some(PlayerDirection::Right)
    );
    assert_eq!(
        resolve_keyboard_direction(keys(false, false, true, false)),
        Some(PlayerDirection::Up)
    );
    assert_eq!(
        resolve_keyboard_direction(keys(false, false, false, true)),
        Some(PlayerDirection::Down)
    );
}

#[test]
fn opposite_keys_resolve_to_first_checked() {
    assert_eq!(
        resolve_keyboard_direction(keys(true, true, false, false)),
        Some(PlayerDirection::Left)
    );
    assert_eq!(
        resolve_keyboard_direction(keys(false, false, true, true)),
        Some(PlayerDirection::Up)
    );
}

#[test]
fn no_keys_no_direction() {
    assert_eq!(resolve_keyboard_direction(keys(false, false, false, false)), None);
}
