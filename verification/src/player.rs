//! The player: the eight compass directions, the keyboard resolution
//! priority chain, and the motion controller with its post-bounce input
//! suppression window.

use vstd::prelude::*;
use crate::geometry::Vec2I;
use crate::screen_bound_collision_detection::{
    bounced_velocity, check_and_bounce, hits_x, hits_y, ScreenCollisionEvent,
};

verus! {

/// The constant speed, in world units per second, at which the player moves;
/// the backend scales the unit direction vector by it.
pub const INITIAL_VELOCITY: i64 = 100;

/// Half-extent of the player's bounding box, as fed to the boundary probes.
pub const PLAYER_HALF_EXTENT: i64 = 1;

/// One of the eight compass directions the player can face and move in.
#[derive(Clone, Copy, Debug, PartialEq, Eq, Structural)]
pub enum PlayerDirection {
    Up,
    Down,
    Left,
    Right,
    UpRight,
    UpLeft,
    DownRight,
    DownLeft,
}

impl Default for PlayerDirection {
    /// The player initially faces down.
    fn default() -> (r: Self)
        ensures
            r == PlayerDirection::Down,
    {
        PlayerDirection::Down
    }
}

impl PlayerDirection {
    /// The axis signs of this direction's unit vector.  The true unit vector
    /// is this offset normalized; the diagonal components are equal in
    /// magnitude, so the signs determine it completely.
    pub open spec fn offset_spec(self) -> Vec2I {
        match self {
            PlayerDirection::Up => Vec2I { x: 0i64, y: 1i64 },
            PlayerDirection::Down => Vec2I { x: 0i64, y: -1i64 },
            PlayerDirection::Left => Vec2I { x: -1i64, y: 0i64 },
            PlayerDirection::Right => Vec2I { x: 1i64, y: 0i64 },
            PlayerDirection::UpRight => Vec2I { x: 1i64, y: 1i64 },
            PlayerDirection::UpLeft => Vec2I { x: -1i64, y: 1i64 },
            PlayerDirection::DownRight => Vec2I { x: 1i64, y: -1i64 },
            PlayerDirection::DownLeft => Vec2I { x: -1i64, y: -1i64 },
        }
    }

    /// Executable form of `offset_spec`.
    pub fn to_offset(self) -> (r: Vec2I)
        ensures
            r == self.offset_spec(),
    {
        match self {
            PlayerDirection::Up => Vec2I { x: 0, y: 1 },
            PlayerDirection::Down => Vec2I { x: 0, y: -1 },
            PlayerDirection::Left => Vec2I { x: -1, y: 0 },
            PlayerDirection::Right => Vec2I { x: 1, y: 0 },
            PlayerDirection::UpRight => Vec2I { x: 1, y: 1 },
            PlayerDirection::UpLeft => Vec2I { x: -1, y: 1 },
            PlayerDirection::DownRight => Vec2I { x: 1, y: -1 },
            PlayerDirection::DownLeft => Vec2I { x: -1, y: -1 },
        }
    }

    /// The direction a velocity-like vector resolves to: an exact match of
    /// one of the eight direction rays (axes, or diagonals with components
    /// equal in magnitude), and Down for every other vector — in particular
    /// for the zero vector, which fails closed rather than propagating a
    /// degenerate normalization.
    pub open spec fn from_offset_spec(v: Vec2I) -> PlayerDirection {
        if v.x == 0 && v.y > 0 {
            PlayerDirection::Up
        } else if v.x == 0 && v.y < 0 {
            PlayerDirection::Down
        } else if v.y == 0 && v.x < 0 {
            PlayerDirection::Left
        } else if v.y == 0 && v.x > 0 {
            PlayerDirection::Right
        } else if v.x < 0 && v.y > 0 && v.x + v.y == 0 {
            PlayerDirection::UpLeft
        } else if v.x > 0 && v.y > 0 && v.x == v.y {
            PlayerDirection::UpRight
        } else if v.x < 0 && v.y < 0 && v.x == v.y {
            PlayerDirection::DownLeft
        } else if v.x > 0 && v.y < 0 && v.x + v.y == 0 {
            PlayerDirection::DownRight
        } else {
            PlayerDirection::Down
        }
    }

    /// Executable form of `from_offset_spec`.
    pub fn from_offset(v: Vec2I) -> (r: PlayerDirection)
        ensures
            r == PlayerDirection::from_offset_spec(v),
    {
        if v.x == 0 && v.y > 0 {
            PlayerDirection::Up
        } else if v.x == 0 && v.y < 0 {
            PlayerDirection::Down
        } else if v.y == 0 && v.x < 0 {
            PlayerDirection::Left
        } else if v.y == 0 && v.x > 0 {
            PlayerDirection::Right
        } else if v.x < 0 && v.y > 0 && v.x + v.y == 0 {
            PlayerDirection::UpLeft
        } else if v.x > 0 && v.y > 0 && v.x == v.y {
            PlayerDirection::UpRight
        } else if v.x < 0 && v.y < 0 && v.x == v.y {
            PlayerDirection::DownLeft
        } else if v.x > 0 && v.y < 0 && v.x + v.y == 0 {
            PlayerDirection::DownRight
        } else {
            PlayerDirection::Down
        }
    }
}

/// Law: direction resolution is total and every one of the eight directions
/// round-trips through its offset vector and back to itself.
pub proof fn lemma_direction_round_trip(d: PlayerDirection)
    ensures
        PlayerDirection::from_offset_spec(d.offset_spec()) == d,
{
}

/// A vector whose components are axis signs of one of the eight directions:
/// each in {-1, 0, 1} and not both zero.
pub open spec fn is_unit_offset(v: Vec2I) -> bool {
    &&& -1 <= v.x <= 1
    &&& -1 <= v.y <= 1
    &&& !(v.x == 0 && v.y == 0)
}

/// Law: on unit offsets the two mappings are mutually inverse, so resolving
/// a (possibly axis-flipped) player heading back to a direction loses
/// nothing.
pub proof fn lemma_offset_inverse(v: Vec2I)
    requires
        is_unit_offset(v),
    ensures
        PlayerDirection::from_offset_spec(v).offset_spec() == v,
{
}

/// The pressed state of the four directional keys for one tick.
#[derive(Clone, Copy, Debug, PartialEq, Eq, Structural, Default)]
pub struct KeySnapshot {
    pub left: bool,
    pub right: bool,
    pub up: bool,
    pub down: bool,
}

impl KeySnapshot {
    /// No directional key is held.
    pub open spec fn none_pressed(self) -> bool {
        !self.left && !self.right && !self.up && !self.down
    }
}

/// The direction the held keys resolve to, by the fixed priority chain:
/// diagonals of the first matching horizontal key win, then the pure
/// directions; Left is checked before Right and Up before Down, so holding
/// opposite keys resolves to the first one checked.
pub open spec fn resolve_keys_spec(k: KeySnapshot) -> Option<PlayerDirection> {
    if k.left {
        if k.down {
            Some(PlayerDirection::DownLeft)
        } else if k.up {
            Some(PlayerDirection::UpLeft)
        } else {
            Some(PlayerDirection::Left)
        }
    } else if k.right {
        if k.down {
            Some(PlayerDirection::DownRight)
        } else if k.up {
            Some(PlayerDirection::UpRight)
        } else {
            Some(PlayerDirection::Right)
        }
    } else if k.up {
        Some(PlayerDirection::Up)
    } else if k.down {
        Some(PlayerDirection::Down)
    } else {
        None
    }
}

/// Resolves the held directional keys to at most one direction.
pub fn resolve_keyboard_direction(k: KeySnapshot) -> (r: Option<PlayerDirection>)
    ensures
        r == resolve_keys_spec(k),
        r is None <==> k.none_pressed(),
{
    if k.left {
        if k.down {
            Some(PlayerDirection::DownLeft)
        } else if k.up {
            Some(PlayerDirection::UpLeft)
        } else {
            Some(PlayerDirection::Left)
        }
    } else if k.right {
        if k.down {
            Some(PlayerDirection::DownRight)
        } else if k.up {
            Some(PlayerDirection::UpRight)
        } else {
            Some(PlayerDirection::Right)
        }
    } else if k.up {
        Some(PlayerDirection::Up)
    } else if k.down {
        Some(PlayerDirection::Down)
    } else {
        None
    }
}

/// Whether the motion controller currently accepts directional input.  It is
/// disabled the instant a boundary bounce affects the player and re-enabled
/// only once every directional key is released.
#[derive(Clone, Copy, Debug, PartialEq, Eq, Structural)]
pub struct PlayerController {
    pub enabled: bool,
}

impl Default for PlayerController {
    fn default() -> (r: Self)
        ensures
            r.enabled,
    {
        PlayerController { enabled: true }
    }
}

/// The player's simulated state: identity, bounding box, heading offset and
/// facing direction.  The heading is the axis-sign vector of the velocity;
/// the backend turns it into the actual velocity at `INITIAL_VELOCITY`.
#[derive(Clone, Copy, Debug, PartialEq, Eq, Structural)]
pub struct PlayerState {
    pub id: u64,
    pub pos: Vec2I,
    pub half_extent: Vec2I,
    pub heading: Vec2I,
    pub facing: PlayerDirection,
}

impl PlayerState {
    /// The heading is always a unit offset and the box is non-degenerate.
    pub open spec fn wf(self) -> bool {
        &&& is_unit_offset(self.heading)
        &&& self.half_extent.x >= 0
        &&& self.half_extent.y >= 0
    }
}

/// Creates the player entity as it exists at the start of every run: at the
/// arena center, facing and heading down, with the standard bounding box.
pub fn spawn_player(id: u64) -> (p: PlayerState)
    ensures
        p.id == id,
        p.pos.x == 0 && p.pos.y == 0,
        p.half_extent.x == PLAYER_HALF_EXTENT && p.half_extent.y == PLAYER_HALF_EXTENT,
        p.facing == PlayerDirection::Down,
        p.heading == PlayerDirection::Down.offset_spec(),
        p.wf(),
{
    PlayerState {
        id,
        pos: Vec2I { x: 0, y: 0 },
        half_extent: Vec2I { x: PLAYER_HALF_EXTENT, y: PLAYER_HALF_EXTENT },
        heading: Vec2I { x: 0, y: -1 },
        facing: PlayerDirection::Down,
    }
}

/// One input-processing step of the motion controller.  While enabled, the
/// resolved direction (if any) becomes the player's facing and heading;
/// while suppressed after a bounce, input is ignored and the controller
/// re-arms exactly when no directional key is held.
pub fn player_controller(
    ctrl: &mut PlayerController,
    player: &mut PlayerState,
    keys: KeySnapshot,
)
    ensures
        final(player).id == old(player).id,
        final(player).pos == old(player).pos,
        final(player).half_extent == old(player).half_extent,
        old(ctrl).enabled ==> final(ctrl).enabled,
        old(ctrl).enabled ==> match resolve_keys_spec(keys) {
            Some(d) => final(player).facing == d && final(player).heading == d.offset_spec(),
            None => *final(player) == *old(player),
        },
        !old(ctrl).enabled ==> *final(player) == *old(player),
        !old(ctrl).enabled ==> final(ctrl).enabled == keys.none_pressed(),
{
    if ctrl.enabled {
        if let Some(direction) = resolve_keyboard_direction(keys) {
            player.facing = direction;
            player.heading = direction.to_offset();
        }
    } else {
        if !keys.left && !keys.right && !keys.up && !keys.down {
            ctrl.enabled = true;
        }
    }
}

/// Bounces the player off the arena bounds: flips the heading axes whose
/// probes crossed an edge and reports one hit notification if any did.
pub fn handle_screen_bound_collisions_player(
    player: &mut PlayerState,
    half_width: i64,
    half_height: i64,
) -> (r: Option<ScreenCollisionEvent>)
    requires
        old(player).wf(),
    ensures
        final(player).wf(),
        final(player).id == old(player).id,
        final(player).pos == old(player).pos,
        final(player).half_extent == old(player).half_extent,
        final(player).facing == old(player).facing,
        final(player).heading == bounced_velocity(
            old(player).pos,
            old(player).half_extent,
            old(player).heading,
            half_width,
            half_height,
        ),
        r matches Some(e) ==> e.entity == old(player).id,
        r is Some <==> hits_x(old(player).pos, old(player).half_extent, half_width)
            || hits_y(old(player).pos, old(player).half_extent, half_height),
{
    let (new_heading, hit) = check_and_bounce(
        player.pos,
        player.half_extent,
        player.heading,
        half_width,
        half_height,
    );
    player.heading = new_heading;
    if hit {
        Some(ScreenCollisionEvent { entity: player.id })
    } else {
        None
    }
}

/// Consumes this tick's boundary-hit notifications: if one names the player,
/// input is suppressed and the facing is re-derived from the bounced
/// heading, so the sprite faces where the bounce now carries it.
pub fn apply_screen_collision(
    ctrl: &mut PlayerController,
    player: &mut PlayerState,
    events: &Vec<ScreenCollisionEvent>,
)
    requires
        old(player).wf(),
    ensures
        final(player).wf(),
        final(player).id == old(player).id,
        final(player).pos == old(player).pos,
        final(player).half_extent == old(player).half_extent,
        final(player).heading == old(player).heading,
        (exists|i: int| 0 <= i < events@.len() && events@[i].entity == old(player).id) ==> {
            &&& !final(ctrl).enabled
            &&& final(player).facing == PlayerDirection::from_offset_spec(old(player).heading)
            &&& final(player).facing.offset_spec() == old(player).heading
        },
        !(exists|i: int| 0 <= i < events@.len() && events@[i].entity == old(player).id) ==> {
            &&& *final(ctrl) == *old(ctrl)
            &&& *final(player) == *old(player)
        },
{
    let mut hit = false;
    let n = events.len();
    let mut i: usize = 0;
    while i < n
        invariant
            n == events@.len(),
            i <= n,
            hit == exists|j: int| 0 <= j < i && events@[j].entity == player.id,
            player == old(player),
            ctrl == old(ctrl),
        decreases n - i,
    {
        if events[i].entity == player.id {
            hit = true;
        }
        i = i + 1;
    }
    if hit {
        ctrl.enabled = false;
        player.facing = PlayerDirection::from_offset(player.heading);
        proof {
            lemma_offset_inverse(old(player).heading);
        }
    }
}

} // verus!
