//! Core simulation logic for a small arcade survival game: a player steers
//! inside a bounded rectangular arena while bouncing fireballs spawn on a
//! timer, speed up as their number grows, and end the run on contact.
//!
//! This crate holds the verified game state machine, the boundary-bounce
//! model, the spawn / speed-escalation policy, the directional input
//! resolution, and the best-score bookkeeping.  Rendering, audio, asset
//! loading and the physics engine are external collaborators: they hand the
//! core plain values (integer positions and velocities, key states, collision
//! events, elapsed time) and take plain values back.

mod fireball;
mod game_data;
mod geometry;
mod player;
mod screen_bound_collision_detection;
mod simulation;
mod state;

pub use fireball::{
    despawn_fireballs, handle_screen_bound_collisions_fireballs, hit_events, increase_speed,
    spawn_fireball, FireballState, COORD_BOUND, FIREBALL_RADIUS, FIREBALL_SPAWN_TIME_MICROS,
    SPAWN_MARGIN,
};
pub use game_data::{
    apply_loaded_record, lemma_escalation_once_per_crossing, lemma_speed_tracks_spawns,
    reset_score, store_new_record, GameData, ESCALATION_THRESHOLD, INITIAL_FIREBALL_SPEED,
    SPEED_MULTIPLIER_DEN, SPEED_MULTIPLIER_NUM,
};
pub use geometry::Vec2I;
pub use player::{
    apply_screen_collision, handle_screen_bound_collisions_player, is_unit_offset,
    lemma_direction_round_trip, lemma_offset_inverse, player_controller,
    resolve_keyboard_direction, resolve_keys_spec, spawn_player, KeySnapshot, PlayerController,
    PlayerDirection, PlayerState, INITIAL_VELOCITY, PLAYER_HALF_EXTENT,
};
pub use screen_bound_collision_detection::{
    bounced_velocity, check_and_bounce, hits_x, hits_y, lemma_boundary_flip_x,
    lemma_boundary_flip_y, ScreenCollisionEvent,
};
pub use simulation::Simulation;
pub use state::{
    any_started_involving, check_player_death, game_state_input_events, note_explosion_ended,
    pause_transition_spec, CollisionEvent, GameState, StateFlags,
};
