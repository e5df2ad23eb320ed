use dodge_fireball::{
    apply_loaded_record, despawn_fireballs, increase_speed, spawn_fireball, spawn_player,
    store_new_record, FireballState, GameData, PlayerState, INITIAL_FIREBALL_SPEED,
};

fn fresh_data() -> GameData {
    GameData { record: 0, n_balls: 0, escalations: 0 }
}

/// The speed the escalation level stands for, reconstructed in floating
/// point the way the rendering backend would.
fn speed_of(gd: &GameData) -> f32 {
    INITIAL_FIREBALL_SPEED as f32 * 1.75f32.powi(gd.escalations as i32)
}

#[test]
fn no_player_means_no_spawn() {
    let mut gd = fresh_data();
    let mut balls: Vec<FireballState> = Vec::new();
    let player: Option<PlayerState> = None;
    spawn_fireball(&mut gd, &mut balls, &player, 800, 600, 1);
    assert_eq!(gd.n_balls, 0);
    assert_eq!(balls.len(), 0);
}

#[test]
fn spawn_lands_in_shrunk_arena_heading_away_from_player() {
    let player = Some(spawn_player(0));
    for round in 0..200u64 {
        let mut gd = fresh_data();
        let mut balls: Vec<FireballState> = Vec::new();
        spawn_fireball(&mut gd, &mut balls, &player, 800, 600, round + 1);
        assert_eq!(gd.n_balls, 1);
        assert_eq!(balls.len(), 1);
        let b = &balls[0];
        assert!(b.pos.x >= -700 && b.pos.x <= 700);
        assert!(b.pos.y >= -500 && b.pos.y <= 500);
        // Player at the origin: the heading is exactly the spawn position,
        // pointing from the player toward the spawn point.
        assert_eq!(b.heading, b.pos);
        // The new fireball moves at the current escalated speed.
        assert_eq!(b.esc, gd.escalations);
    }
}

#[test]
fn spawn_heading_is_exact_difference() {
    let mut player = spawn_player(0);
    player.pos.x = 300;
    player.pos.y = -200;
    let player = Some(player);
    let mut gd = fresh_data();
    let mut balls: Vec<FireballState> = Vec::new();
    spawn_fireball(&mut gd, &mut balls, &player, 800, 600, 1);
    let b = &balls[0];
    assert_eq!(b.heading.x, b.pos.x - 300);
    assert_eq!(b.heading.y, b.pos.y + 200);
}

#[test]
fn speed_after_ten_and_twenty_spawns() {
    let player = Some(spawn_player(0));
    let mut gd = fresh_data();
    let mut balls: Vec<FireballState> = Vec::new();
    assert_eq!(speed_of(&gd), 40.0);
    for i in 0..10 {
        spawn_fireball(&mut gd, &mut balls, &player, 800, 600, i + 1);
        increase_speed(&mut gd, &mut balls);
    }
    assert_eq!(gd.n_balls, 10);
    assert_eq!(gd.escalations, 1);
    assert_eq!(speed_of(&gd), 40.0 * 1.75);
    for b in &balls {
        assert_eq!(b.esc, 1);
    }
    for i in 10..20 {
        spawn_fireball(&mut gd, &mut balls, &player, 800, 600, i + 1);
        increase_speed(&mut gd, &mut balls);
    }
    assert_eq!(gd.escalations, 2);
    assert_eq!(speed_of(&gd), 40.0 * 1.75 * 1.75);
    for b in &balls {
        assert_eq!(b.esc, 2);
    }
}

#[test]
fn escalation_applies_once_per_crossing() {
    let player = Some(spawn_player(0));
    let mut gd = fresh_data();
    let mut balls: Vec<FireballState> = Vec::new();
    for i in 0..10 {
        spawn_fireball(&mut gd, &mut balls, &player, 800, 600, i + 1);
    }
    // Re-evaluating the escalation check on later ticks without new spawns
    // must not re-apply the multiplier.
    increase_speed(&mut gd, &mut balls);
    assert_eq!(gd.escalations, 1);
    increase_speed(&mut gd, &mut balls);
    increase_speed(&mut gd, &mut balls);
    assert_eq!(gd.escalations, 1);
    assert_eq!(speed_of(&gd), 70.0);
}

#[test]
fn zero_spawns_never_escalate() {
    let mut gd = fresh_data();
    let mut balls: Vec<FireballState> = Vec::new();
    increase_speed(&mut gd, &mut balls);
    increase_speed(&mut gd, &mut balls);
    assert_eq!(gd.escalations, 0);
    assert_eq!(speed_of(&gd), 40.0);
}

#[test]
fn despawn_empties_population() {
    let player = Some(spawn_player(0));
    let mut gd = fresh_data();
    let mut balls: Vec<FireballState> = Vec::new();
    for i in 0..3 {
        spawn_fireball(&mut gd, &mut balls, &player, 800, 600, i + 1);
    }
    assert_eq!(balls.len(), 3);
    despawn_fireballs(&mut balls);
    assert!(balls.is_empty());
}

#[test]
fn record_persists_only_when_beaten() {
    let mut gd = GameData { record: 5, n_balls: 9, escalations: 0 };
    let persist = store_new_record(&mut gd);
    assert_eq!(persist, Some(9));
    assert_eq!(gd.record, 9);
    // A run that merely ties the record touches nothing.
    let mut gd2 = GameData { record: 9, n_balls: 9, escalations: 0 };
    let persist2 = store_new_record(&mut gd2);
    assert_eq!(persist2, None);
    assert_eq!(gd2.record, 9);
}

#[test]
fn loading_a_stored_record_applies_it() {
    let mut gd = fresh_data();
    let write_default = apply_loaded_record(&mut gd, Some(17));
    assert_eq!(gd.record, 17);
    assert_eq!(write_default, None);
}

#[test]
fn missing_stored_record_defaults_to_zero() {
    let mut gd = fresh_data();
    let write_default = apply_loaded_record(&mut gd, None);
    assert_eq!(gd.record, 0);
    assert_eq!(write_default, Some(0));
}
