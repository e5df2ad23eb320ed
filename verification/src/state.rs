//! The run-state machine and the death detector.

use vstd::prelude::*;

verus! {

/// The run state.  InGame is initial; GameOver is terminal until an explicit
/// restart.
#[derive(Clone, Copy, Debug, PartialEq, Eq, Structural, Hash)]
pub enum GameState {
    InGame,
    Paused,
    GameOver,
}

impl Default for GameState {
    fn default() -> (r: Self)
        ensures
            r == GameState::InGame,
    {
        GameState::InGame
    }
}

/// Out-of-band flags: whether the death sequence has signalled completion,
/// which gates the restart out of the terminal state.
#[derive(Clone, Copy, Debug, PartialEq, Eq, Structural, Default)]
pub struct StateFlags {
    pub explosion_ended: bool,
}

/// Records that the death sequence has run to completion, unlocking the
/// restart.
pub fn note_explosion_ended(flags: &mut StateFlags)
    ensures
        final(flags).explosion_ended,
{
    flags.explosion_ended = true;
}

/// The state the pause key drives the machine to.  From the terminal state
/// the key is ignored until the death sequence has completed; taking that
/// restart consumes the completion flag.
pub open spec fn pause_transition_spec(state: GameState, flags: StateFlags) -> (GameState, StateFlags) {
    match state {
        GameState::InGame => (GameState::Paused, flags),
        GameState::Paused => (GameState::InGame, flags),
        GameState::GameOver => if flags.explosion_ended {
            (GameState::InGame, StateFlags { explosion_ended: false })
        } else {
            (GameState::GameOver, flags)
        },
    }
}

/// Applies one pause-key press (or none) to the run state.  Without a press
/// nothing changes; with one the machine follows `pause_transition_spec`.
pub fn game_state_input_events(
    state: GameState,
    flags: &mut StateFlags,
    pause_pressed: bool,
) -> (r: GameState)
    ensures
        !pause_pressed ==> r == state && *final(flags) == *old(flags),
        pause_pressed ==> (r, *final(flags)) == pause_transition_spec(state, *old(flags)),
{
    if pause_pressed {
        match state {
            GameState::InGame => GameState::Paused,
            GameState::Paused => GameState::InGame,
            GameState::GameOver => {
                if flags.explosion_ended {
                    flags.explosion_ended = false;
                    GameState::InGame
                } else {
                    GameState::GameOver
                }
            },
        }
    } else {
        state
    }
}

/// A collision event reported by the physics resolver for one tick: a pair
/// of entities beginning or ending contact.
#[derive(Clone, Copy, Debug, PartialEq, Eq, Structural)]
pub enum CollisionEvent {
    Started(u64, u64),
    Stopped(u64, u64),
}

/// Some collision-begin event in the batch involves the given entity.
/// Collision-end events never count.
pub open spec fn any_started_involving(events: Seq<CollisionEvent>, id: u64) -> bool {
    exists|i: int| {
        &&& 0 <= i < events.len()
        &&& (#[trigger] events[i]) matches CollisionEvent::Started(a, b)
        &&& (a == id || b == id)
    }
}

/// The death detector: while the run is live, the first collision-begin
/// event involving the player moves the machine to the terminal state;
/// collision-end events and everything after death are ignored, so the
/// detector fires at most once per life.
pub fn check_player_death(
    state: GameState,
    player_id: u64,
    events: &Vec<CollisionEvent>,
) -> (r: GameState)
    ensures
        state != GameState::InGame ==> r == state,
        state == GameState::InGame ==> r == if any_started_involving(events@, player_id) {
            GameState::GameOver
        } else {
            GameState::InGame
        },
{
    match state {
        GameState::InGame => {},
        GameState::Paused => {
            return state;
        },
        GameState::GameOver => {
            return state;
        },
    }
    let n = events.len();
    let mut i: usize = 0;
    while i < n
        invariant
            state == GameState::InGame,
            n == events@.len(),
            i <= n,
            !any_started_involving(events@.take(i as int), player_id),
        decreases n - i,
    {
        let hit = match events[i] {
            CollisionEvent::Started(a, b) => a == player_id || b == player_id,
            CollisionEvent::Stopped(_, _) => false,
        };
        if hit {
            assert(any_started_involving(events@, player_id));
            return GameState::GameOver;
        }
        proof {
            let taken = events@.take(i + 1);
            assert(forall|j: int| 0 <= j < taken.len() - 1
                ==> taken[j] == #[trigger] events@.take(i as int)[j]);
            assert(taken[i as int] == events@[i as int]);
        }
        i = i + 1;
    }
    proof {
        assert(events@.take(n as int) =~= events@);
    }
    GameState::InGame
}

} // verus!
