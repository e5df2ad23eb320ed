//! The simulation: one struct owning the whole game state, with the per-tick
//! pipeline in the fixed order — input, boundary bounce, death detection,
//! spawn timer, speed escalation — and the run-lifecycle transitions with
//! their side effects.

use vstd::prelude::*;
use crate::fireball::{
    despawn_fireballs, handle_screen_bound_collisions_fireballs, hit_events, increase_speed,
    spawn_fireball, FireballState, COORD_BOUND, FIREBALL_SPAWN_TIME_MICROS, SPAWN_MARGIN,
};
use crate::game_data::{reset_score, store_new_record, GameData};
use crate::geometry::Vec2I;
use crate::player::{
    apply_screen_collision, handle_screen_bound_collisions_player, player_controller,
    resolve_keys_spec, spawn_player, KeySnapshot, PlayerController, PlayerDirection, PlayerState,
};
use crate::screen_bound_collision_detection::{
    bounced_velocity, hits_x, hits_y, ScreenCollisionEvent,
};
use crate::state::{
    any_started_involving, check_player_death, game_state_input_events, note_explosion_ended,
    CollisionEvent, GameState, StateFlags,
};

verus! {

/// The whole simulated game.  Positions are written back by the physics
/// backend between ticks through the position setters; everything else is
/// owned here.
pub struct Simulation {
    pub state: GameState,
    pub flags: StateFlags,
    pub data: GameData,
    pub player: Option<PlayerState>,
    pub controller: PlayerController,
    pub fireballs: Vec<FireballState>,
    pub half_width: i64,
    pub half_height: i64,
    /// Simulated microseconds accumulated toward the next spawn; the clock
    /// stops outside the running state.
    pub timer_acc: u64,
    pub next_id: u64,
}

impl Simulation {
    /// The simulation invariant: arena bounds in range, exactly one live
    /// player outside the terminal state and none inside it, every live
    /// fireball well-formed and at the current escalation level, the speed
    /// synced to the spawn count, and the spawn timer strictly inside one
    /// period.
    pub open spec fn wf(self) -> bool {
        &&& SPAWN_MARGIN < self.half_width <= COORD_BOUND
        &&& SPAWN_MARGIN < self.half_height <= COORD_BOUND
        &&& (self.player is Some <==> self.state != GameState::GameOver)
        &&& self.player matches Some(p) ==> {
            &&& p.wf()
            &&& -COORD_BOUND <= p.pos.x <= COORD_BOUND
            &&& -COORD_BOUND <= p.pos.y <= COORD_BOUND
            &&& p.id < self.next_id
        }
        &&& forall|i: int| 0 <= i < self.fireballs@.len() ==> {
            &&& (#[trigger] self.fireballs@[i]).wf()
            &&& self.fireballs@[i].esc == self.data.escalations
            &&& self.fireballs@[i].id < self.next_id
        }
        &&& (self.player matches Some(p) ==> forall|i: int|
            0 <= i < self.fireballs@.len() ==> (#[trigger] self.fireballs@[i]).id != p.id)
        &&& self.data.speed_synced()
        &&& self.timer_acc < FIREBALL_SPAWN_TIME_MICROS
    }

    /// A fresh game in the given arena: running, nothing spawned, the speed
    /// at its initial value, one player at the center.
    pub fn new(half_width: i64, half_height: i64) -> (sim: Simulation)
        requires
            SPAWN_MARGIN < half_width <= COORD_BOUND,
            SPAWN_MARGIN < half_height <= COORD_BOUND,
        ensures
            sim.wf(),
            sim.state == GameState::InGame,
            !sim.flags.explosion_ended,
            sim.data.record == 0,
            sim.data.n_balls == 0,
            sim.data.escalations == 0,
            sim.player is Some,
            sim.controller.enabled,
            sim.fireballs@.len() == 0,
            sim.half_width == half_width,
            sim.half_height == half_height,
            sim.timer_acc == 0,
    {
        Simulation {
            state: GameState::InGame,
            flags: StateFlags { explosion_ended: false },
            data: GameData { record: 0, n_balls: 0, escalations: 0 },
            player: Some(spawn_player(0)),
            controller: PlayerController { enabled: true },
            fireballs: Vec::new(),
            half_width,
            half_height,
            timer_acc: 0,
            next_id: 1,
        }
    }

    /// Writes back the player's post-integration position from the physics
    /// backend.
    pub fn set_player_position(&mut self, pos: Vec2I)
        requires
            old(self).wf(),
            -COORD_BOUND <= pos.x <= COORD_BOUND,
            -COORD_BOUND <= pos.y <= COORD_BOUND,
        ensures
            final(self).wf(),
            old(self).player matches Some(p) ==> final(self).player == Some(
                PlayerState { pos, ..p },
            ),
            old(self).player is None ==> final(self).player is None,
            final(self).state == old(self).state,
            final(self).flags == old(self).flags,
            final(self).data == old(self).data,
            final(self).controller == old(self).controller,
            final(self).fireballs@ == old(self).fireballs@,
            final(self).half_width == old(self).half_width,
            final(self).half_height == old(self).half_height,
            final(self).timer_acc == old(self).timer_acc,
            final(self).next_id == old(self).next_id,
    {
        match &mut self.player {
            Some(p) => {
                p.pos = pos;
            },
            None => {},
        }
    }

    /// Writes back one fireball's post-integration position from the physics
    /// backend.
    pub fn set_fireball_position(&mut self, i: usize, pos: Vec2I)
        requires
            old(self).wf(),
            i < old(self).fireballs@.len(),
        ensures
            final(self).wf(),
            final(self).fireballs@ == old(self).fireballs@.update(
                i as int,
                FireballState { pos, ..old(self).fireballs@[i as int] },
            ),
            final(self).state == old(self).state,
            final(self).flags == old(self).flags,
            final(self).data == old(self).data,
            final(self).player == old(self).player,
            final(self).controller == old(self).controller,
            final(self).half_width == old(self).half_width,
            final(self).half_height == old(self).half_height,
            final(self).timer_acc == old(self).timer_acc,
            final(self).next_id == old(self).next_id,
    {
        let mut b = self.fireballs[i];
        b.pos = pos;
        self.fireballs.set(i, b);
    }

    /// Applies one tick's pause-key input to the run state, with the restart
    /// side effects.  A press while paused resumes; a press while running
    /// pauses; a press in the terminal state restarts only once the death
    /// sequence has completed, and a restart always yields a fresh run: no
    /// spawns counted, speed back at its initial value, no live fireball,
    /// exactly one live player, and the spawn timer at zero.  The record is
    /// never touched here.
    pub fn handle_pause_input(&mut self, pause_pressed: bool)
        requires
            old(self).wf(),
            old(self).next_id < u64::MAX,
        ensures
            final(self).wf(),
            final(self).data.record == old(self).data.record,
            final(self).half_width == old(self).half_width,
            final(self).half_height == old(self).half_height,
            final(self).controller == old(self).controller,
            !pause_pressed ==> final(self).state == old(self).state
                && final(self).flags == old(self).flags
                && final(self).data == old(self).data
                && final(self).player == old(self).player
                && final(self).fireballs@ == old(self).fireballs@
                && final(self).timer_acc == old(self).timer_acc,
            pause_pressed ==> (final(self).state, final(self).flags)
                == crate::state::pause_transition_spec(old(self).state, old(self).flags),
            (pause_pressed && old(self).state == GameState::GameOver
                && old(self).flags.explosion_ended) ==> {
                &&& final(self).state == GameState::InGame
                &&& final(self).data.n_balls == 0
                &&& final(self).data.escalations == 0
                &&& final(self).fireballs@.len() == 0
                &&& final(self).player is Some
                &&& final(self).timer_acc == 0
            },
            !(pause_pressed && old(self).state == GameState::GameOver
                && old(self).flags.explosion_ended) ==> {
                &&& final(self).data == old(self).data
                &&& final(self).player == old(self).player
                &&& final(self).fireballs@ == old(self).fireballs@
                &&& final(self).timer_acc == old(self).timer_acc
                &&& final(self).next_id == old(self).next_id
            },
    {
        let was_game_over = matches!(self.state, GameState::GameOver);
        let new_state = game_state_input_events(self.state, &mut self.flags, pause_pressed);
        let restarted = was_game_over && matches!(new_state, GameState::InGame);
        self.state = new_state;
        if restarted {
            reset_score(&mut self.data);
            despawn_fireballs(&mut self.fireballs);
            self.player = Some(spawn_player(self.next_id));
            self.next_id = self.next_id + 1;
            self.timer_acc = 0;
        }
    }

    /// Consumes this tick's collision events from the physics resolver.
    /// While the run is live, the first collision-begin event involving the
    /// player ends the run: the machine enters the terminal state, the
    /// player despawns, and the score is committed — the returned value is
    /// the new record to persist exactly when the run's spawn count beats
    /// the stored record, and the store stays untouched otherwise.  Outside
    /// the live state every event is ignored.
    pub fn apply_death(&mut self, events: &Vec<CollisionEvent>) -> (persist: Option<u64>)
        requires
            old(self).wf(),
        ensures
            final(self).wf(),
            final(self).half_width == old(self).half_width,
            final(self).half_height == old(self).half_height,
            final(self).flags == old(self).flags,
            final(self).controller == old(self).controller,
            final(self).fireballs@ == old(self).fireballs@,
            final(self).timer_acc == old(self).timer_acc,
            old(self).state != GameState::InGame ==> {
                &&& final(self).state == old(self).state
                &&& final(self).data == old(self).data
                &&& final(self).player == old(self).player
                &&& persist is None
            },
            old(self).state == GameState::InGame ==> {
                let pid = old(self).player->Some_0.id;
                if any_started_involving(events@, pid) {
                    &&& final(self).state == GameState::GameOver
                    &&& final(self).player is None
                    &&& final(self).data.n_balls == old(self).data.n_balls
                    &&& final(self).data.escalations == old(self).data.escalations
                    &&& (old(self).data.n_balls > old(self).data.record ==> {
                        &&& final(self).data.record == old(self).data.n_balls
                        &&& persist == Some(old(self).data.n_balls)
                    })
                    &&& (old(self).data.n_balls <= old(self).data.record ==> {
                        &&& final(self).data.record == old(self).data.record
                        &&& persist is None
                    })
                } else {
                    &&& *final(self) == *old(self)
                    &&& persist is None
                }
            },
    {
        let pid = match &self.player {
            Some(p) => p.id,
            None => {
                return None;
            },
        };
        let new_state = check_player_death(self.state, pid, events);
        let died = matches!(self.state, GameState::InGame) && matches!(new_state, GameState::GameOver);
        self.state = new_state;
        if died {
            self.player = None;
            store_new_record(&mut self.data)
        } else {
            None
        }
    }

    /// One simulation tick, in the fixed order: state input, directional
    /// input, boundary bounce (with suppression of post-bounce steering),
    /// death detection, the spawn timer, then speed escalation.  The caller
    /// integrates positions between ticks and hands in this tick's elapsed
    /// simulated time and collision events; it gets back the boundary-hit
    /// notifications and, on a fatal tick that set a new record, the score
    /// to persist.  The simulation clock runs only while the run is live:
    /// pausing, the death sequence and the terminal state freeze the spawn
    /// timer rather than letting it accumulate.
    pub fn tick(
        &mut self,
        dt_micros: u64,
        keys: KeySnapshot,
        pause_pressed: bool,
        explosion_ended_event: bool,
        collisions: &Vec<CollisionEvent>,
    ) -> (out: (Vec<ScreenCollisionEvent>, Option<u64>))
        requires
            old(self).wf(),
            dt_micros <= 1_000_000_000_000,
            old(self).data.n_balls <= u64::MAX - 200_000,
            old(self).next_id <= u64::MAX - 200_000,
        ensures
            final(self).wf(),
            final(self).half_width == old(self).half_width,
            final(self).half_height == old(self).half_height,
            final(self).data.record >= old(self).data.record,
            (old(self).state == GameState::Paused && !pause_pressed) ==> {
                &&& final(self).state == GameState::Paused
                &&& final(self).data == old(self).data
                &&& final(self).player == old(self).player
                &&& final(self).fireballs@ == old(self).fireballs@
                &&& final(self).timer_acc == old(self).timer_acc
                &&& out.0@.len() == 0
                &&& out.1 is None
            },
            (old(self).state == GameState::GameOver
                && !(pause_pressed && (old(self).flags.explosion_ended || explosion_ended_event)))
                ==> {
                &&& final(self).state == GameState::GameOver
                &&& final(self).data == old(self).data
                &&& final(self).player is None
                &&& final(self).fireballs@ == old(self).fireballs@
                &&& out.0@.len() == 0
                &&& out.1 is None
            },
            (old(self).state == GameState::GameOver && pause_pressed
                && (old(self).flags.explosion_ended || explosion_ended_event)) ==> {
                &&& final(self).state == GameState::InGame
                &&& final(self).data.record == old(self).data.record
                &&& final(self).data.n_balls == 0
                &&& final(self).data.escalations == 0
                &&& final(self).fireballs@.len() == 0
                &&& final(self).player is Some
                &&& final(self).timer_acc == 0
                &&& out.0@.len() == 0
                &&& out.1 is None
            },
            (old(self).state == GameState::InGame && !pause_pressed) ==> {
                let p = old(self).player->Some_0;
                let player_hit = hits_x(p.pos, p.half_extent, old(self).half_width)
                    || hits_y(p.pos, p.half_extent, old(self).half_height);
                out.0@ == (if player_hit {
                    seq![ScreenCollisionEvent { entity: p.id }]
                } else {
                    Seq::<ScreenCollisionEvent>::empty()
                }) + hit_events(old(self).fireballs@, old(self).half_width, old(self).half_height)
            },
            (old(self).state == GameState::InGame && !pause_pressed
                && any_started_involving(collisions@, old(self).player->Some_0.id)) ==> {
                &&& final(self).state == GameState::GameOver
                &&& final(self).player is None
                &&& final(self).data.n_balls == old(self).data.n_balls
                &&& (old(self).data.n_balls > old(self).data.record ==> {
                    &&& final(self).data.record == old(self).data.n_balls
                    &&& out.1 == Some(old(self).data.n_balls)
                })
                &&& (old(self).data.n_balls <= old(self).data.record ==> {
                    &&& final(self).data.record == old(self).data.record
                    &&& out.1 is None
                })
            },
            (old(self).state == GameState::InGame && !pause_pressed
                && !any_started_involving(collisions@, old(self).player->Some_0.id)) ==> {
                &&& final(self).state == GameState::InGame
                &&& final(self).player is Some
                &&& final(self).data.record == old(self).data.record
                &&& final(self).data.n_balls >= old(self).data.n_balls
                &&& out.1 is None
            },
            (old(self).state == GameState::InGame && !pause_pressed
                && !any_started_involving(collisions@, old(self).player->Some_0.id)) ==> {
                let p = old(self).player->Some_0;
                let steered = old(self).controller.enabled && resolve_keys_spec(keys) is Some;
                let heading_in = if steered {
                    resolve_keys_spec(keys)->Some_0.offset_spec()
                } else {
                    p.heading
                };
                let facing_in = if steered { resolve_keys_spec(keys)->Some_0 } else { p.facing };
                let player_hit = hits_x(p.pos, p.half_extent, old(self).half_width)
                    || hits_y(p.pos, p.half_extent, old(self).half_height);
                let heading_out = bounced_velocity(
                    p.pos,
                    p.half_extent,
                    heading_in,
                    old(self).half_width,
                    old(self).half_height,
                );
                &&& final(self).player matches Some(p2) && {
                    &&& p2.id == p.id
                    &&& p2.pos == p.pos
                    &&& p2.half_extent == p.half_extent
                    &&& p2.heading == heading_out
                    &&& (player_hit ==> p2.facing == PlayerDirection::from_offset_spec(heading_out))
                    &&& (!player_hit ==> p2.facing == facing_in)
                }
                &&& (player_hit ==> !final(self).controller.enabled)
                &&& (!player_hit ==> final(self).controller.enabled
                    == (old(self).controller.enabled || keys.none_pressed()))
            },
    {
        if explosion_ended_event {
            note_explosion_ended(&mut self.flags);
        }
        let was_game_over = matches!(self.state, GameState::GameOver);
        self.handle_pause_input(pause_pressed);
        let restarted = was_game_over && matches!(self.state, GameState::InGame);

        let mut events: Vec<ScreenCollisionEvent> = Vec::new();
        let mut persist: Option<u64> = None;

        if matches!(self.state, GameState::InGame) && !restarted {
            match &mut self.player {
                Some(p) => player_controller(&mut self.controller, p, keys),
                None => {},
            }
            let player_event = match &mut self.player {
                Some(p) => handle_screen_bound_collisions_player(
                    p,
                    self.half_width,
                    self.half_height,
                ),
                None => None,
            };
            if let Some(e) = player_event {
                events.push(e);
            }
            let mut fireball_events = handle_screen_bound_collisions_fireballs(
                &mut self.fireballs,
                self.half_width,
                self.half_height,
            );
            events.append(&mut fireball_events);
            proof {
                let pid = old(self).player->Some_0.id;
                crate::fireball::lemma_hit_events_ids(
                    old(self).fireballs@,
                    old(self).half_width,
                    old(self).half_height,
                    pid,
                );
                let fire_evs = hit_events(
                    old(self).fireballs@,
                    old(self).half_width,
                    old(self).half_height,
                );
                if player_event is Some {
                    assert(events@[0].entity == pid);
                } else {
                    assert(events@ == fire_evs);
                    assert forall|i: int| 0 <= i < events@.len() implies (#[trigger] events@[i]).entity
                        != pid by {
                        assert(events@[i] == fire_evs[i]);
                    }
                }
            }
            match &mut self.player {
                Some(p) => apply_screen_collision(&mut self.controller, p, &events),
                None => {},
            }
            persist = self.apply_death(collisions);

            if matches!(self.state, GameState::InGame) {
                let ghost n0 = self.data.n_balls;
                let ghost id0 = self.next_id;
                let ghost esc0 = self.data.escalations;
                let ghost rec0 = self.data.record;
                self.timer_acc = self.timer_acc + dt_micros;
                let ghost acc0 = self.timer_acc;
                let ghost player_snap = self.player;
                let ghost ctrl_snap = self.controller;
                while self.timer_acc >= FIREBALL_SPAWN_TIME_MICROS
                    invariant
                        self.wf_spawn_loop(n0, id0, esc0, rec0, acc0),
                        self.half_width == old(self).half_width,
                        self.half_height == old(self).half_height,
                        self.data.record >= old(self).data.record,
                        self.player == player_snap,
                        self.controller == ctrl_snap,
                    decreases self.timer_acc,
                {
                    proof {
                        assert((self.data.n_balls - n0) * FIREBALL_SPAWN_TIME_MICROS
                            <= acc0);
                    }
                    let ghost pre_balls = self.fireballs@;
                    let id = self.next_id;
                    spawn_fireball(
                        &mut self.data,
                        &mut self.fireballs,
                        &self.player,
                        self.half_width,
                        self.half_height,
                        id,
                    );
                    proof {
                        assert forall|i: int| 0 <= i < self.fireballs@.len() - 1 implies (
                            #[trigger] self.fireballs@[i]) == pre_balls[i] by {
                            assert(self.fireballs@.subrange(0, pre_balls.len() as int)[i]
                                == self.fireballs@[i]);
                        }
                    }
                    self.next_id = self.next_id + 1;
                    self.timer_acc = self.timer_acc - FIREBALL_SPAWN_TIME_MICROS;
                }
                proof {
                    vstd::arithmetic::div_mod::lemma_div_is_ordered(
                        n0 as int,
                        self.data.n_balls as int,
                        crate::game_data::ESCALATION_THRESHOLD as int,
                    );
                }
                increase_speed(&mut self.data, &mut self.fireballs);
            }
        }
        (events, persist)
    }

    /// What holds at every round of the spawn-timer loop: the run is live,
    /// the player untouched, every live fireball well-formed at the level
    /// the loop entered with, and the spawn count, next identity and timer
    /// advance in lock step — each spawn consumed exactly one period.
    pub open spec fn wf_spawn_loop(
        self,
        n0: u64,
        id0: u64,
        esc0: u64,
        rec0: u64,
        acc0: u64,
    ) -> bool {
        &&& SPAWN_MARGIN < self.half_width <= COORD_BOUND
        &&& SPAWN_MARGIN < self.half_height <= COORD_BOUND
        &&& self.state == GameState::InGame
        &&& self.player is Some
        &&& self.player matches Some(p) ==> {
            &&& p.wf()
            &&& -COORD_BOUND <= p.pos.x <= COORD_BOUND
            &&& -COORD_BOUND <= p.pos.y <= COORD_BOUND
            &&& p.id < self.next_id
        }
        &&& self.data.escalations == esc0
        &&& self.data.record == rec0
        &&& esc0 == n0 / crate::game_data::ESCALATION_THRESHOLD
        &&& n0 <= self.data.n_balls
        &&& n0 <= u64::MAX - 200_000
        &&& id0 <= u64::MAX - 200_000
        &&& acc0 <= 1_000_000_000_000 + FIREBALL_SPAWN_TIME_MICROS
        &&& self.data.n_balls - n0 == self.next_id - id0
        &&& (self.data.n_balls - n0) * FIREBALL_SPAWN_TIME_MICROS + self.timer_acc == acc0
        &&& forall|i: int| 0 <= i < self.fireballs@.len() ==> {
            &&& (#[trigger] self.fireballs@[i]).wf()
            &&& self.fireballs@[i].esc == esc0
            &&& self.fireballs@[i].id < self.next_id
        }
        &&& (self.player matches Some(p) ==> forall|i: int|
            0 <= i < self.fireballs@.len() ==> (#[trigger] self.fireballs@[i]).id != p.id)
    }
}

} // verus!
