use dodge_fireball::{
    apply_screen_collision, check_and_bounce, handle_screen_bound_collisions_fireballs,
    handle_screen_bound_collisions_player, player_controller, spawn_player, FireballState,
    KeySnapshot, PlayerController, PlayerDirection, ScreenCollisionEvent, Vec2I,
};

fn ball(id: u64, pos: Vec2I, heading: Vec2I) -> FireballState {
    FireballState {
        id,
        pos,
        half_extent: Vec2I { x: 0, y: 0 },
        heading,
        esc: 0,
    }
}

#[test]
fn east_edge_flips_x_once() {
    // |x| + 2 * half_extent.x reaches the half-width: x flips exactly once.
    let (vel, hit) = check_and_bounce(
        Vec2I { x: 796, y: 0 },
        Vec2I { x: 2, y: 2 },
        Vec2I { x: 30, y: 40 },
        800,
        600,
    );
    assert!(hit);
    assert_eq!(vel, Vec2I { x: -30, y: 40 });
}

#[test]
fn west_edge_flips_x_once() {
    let (vel, hit) = check_and_bounce(
        Vec2I { x: -796, y: 0 },
        Vec2I { x: 2, y: 2 },
        Vec2I { x: -30, y: 40 },
        800,
        600,
    );
    assert!(hit);
    assert_eq!(vel, Vec2I { x: 30, y: 40 });
}

#[test]
fn inside_arena_no_flip() {
    let (vel, hit) = check_and_bounce(
        Vec2I { x: 0, y: 0 },
        Vec2I { x: 2, y: 2 },
        Vec2I { x: 30, y: 40 },
        800,
        600,
    );
    assert!(!hit);
    assert_eq!(vel, Vec2I { x: 30, y: 40 });
}

#[test]
fn south_edge_is_inclusive() {
    // The south probe uses >=: a probe exactly on the half-height bounces.
    let (vel, hit) = check_and_bounce(
        Vec2I { x: 0, y: 604 },
        Vec2I { x: 2, y: 2 },
        Vec2I { x: 0, y: 9 },
        800,
        600,
    );
    assert!(hit);
    assert_eq!(vel, Vec2I { x: 0, y: -9 });
}

#[test]
fn north_edge_is_strict() {
    // The north probe uses <: a probe exactly on the negated half-height
    // does not bounce.
    let (vel, hit) = check_and_bounce(
        Vec2I { x: 0, y: -604 },
        Vec2I { x: 2, y: 2 },
        Vec2I { x: 0, y: -9 },
        800,
        600,
    );
    assert!(!hit);
    assert_eq!(vel, Vec2I { x: 0, y: -9 });
    // One unit further out it does.
    let (vel2, hit2) = check_and_bounce(
        Vec2I { x: 0, y: -605 },
        Vec2I { x: 2, y: 2 },
        Vec2I { x: 0, y: -9 },
        800,
        600,
    );
    assert!(hit2);
    assert_eq!(vel2, Vec2I { x: 0, y: 9 });
}

#[test]
fn corner_flips_both_axes_one_event() {
    let mut balls = vec![ball(7, Vec2I { x: 800, y: 600 }, Vec2I { x: 3, y: 4 })];
    let events = handle_screen_bound_collisions_fireballs(&mut balls, 800, 600);
    assert_eq!(balls[0].heading, Vec2I { x: -3, y: -4 });
    assert_eq!(events.len(), 1);
    assert_eq!(events[0], ScreenCollisionEvent { entity: 7 });
}

#[test]
fn one_event_per_affected_entity_per_tick() {
    let mut balls = vec![
        ball(1, Vec2I { x: 800, y: 0 }, Vec2I { x: 5, y: 5 }),
        ball(2, Vec2I { x: 0, y: 0 }, Vec2I { x: 5, y: 5 }),
        ball(3, Vec2I { x: -800, y: 0 }, Vec2I { x: -5, y: 5 }),
    ];
    let events = handle_screen_bound_collisions_fireballs(&mut balls, 800, 600);
    let ids: Vec<u64> = events.iter().map(|e| e.entity).collect();
    assert_eq!(ids, vec![1, 3]);
    assert_eq!(balls[0].heading, Vec2I { x: -5, y: 5 });
    assert_eq!(balls[1].heading, Vec2I { x: 5, y: 5 });
    assert_eq!(balls[2].heading, Vec2I { x: 5, y: 5 });
}

#[test]
fn player_bounce_suppresses_input_until_keys_released() {
    let mut player = spawn_player(0);
    let mut ctrl = PlayerController::default();
    // Steer right, into the east wall.
    player_controller(
        &mut ctrl,
        &mut player,
        KeySnapshot { left: false, right: true, up: false, down: false },
    );
    assert_eq!(player.facing, PlayerDirection::Right);
    player.pos = Vec2I { x: 799, y: 0 };
    let event = handle_screen_bound_collisions_player(&mut player, 800, 600);
    assert_eq!(event, Some(ScreenCollisionEvent { entity: 0 }));
    assert_eq!(player.heading, Vec2I { x: -1, y: 0 });
    let events = vec![event.unwrap()];
    apply_screen_collision(&mut ctrl, &mut player, &events);
    assert!(!ctrl.enabled);
    assert_eq!(player.facing, PlayerDirection::Left);
    // Input held: still suppressed, direction unchanged.
    player_controller(
        &mut ctrl,
        &mut player,
        KeySnapshot { left: false, right: true, up: false, down: false },
    );
    assert!(!ctrl.enabled);
    assert_eq!(player.facing, PlayerDirection::Left);
    // All keys released: the controller re-arms without steering.
    player_controller(
        &mut ctrl,
        &mut player,
        KeySnapshot { left: false, right: false, up: false, down: false },
    );
    assert!(ctrl.enabled);
    assert_eq!(player.facing, PlayerDirection::Left);
    // Fresh input is accepted again.
    player_controller(
        &mut ctrl,
        &mut player,
        KeySnapshot { left: false, right: false, up: true, down: false },
    );
    assert_eq!(player.facing, PlayerDirection::Up);
}

#[test]
fn foreign_bounce_event_leaves_player_alone() {
    let mut player = spawn_player(0);
    let mut ctrl = PlayerController::default();
    let events = vec![ScreenCollisionEvent { entity: 42 }];
    apply_screen_collision(&mut ctrl, &mut player, &events);
    assert!(ctrl.enabled);
    assert_eq!(player.facing, PlayerDirection::Down);
}
