//! Boundary bounce: when an entity's probe points cross the arena edge, the
//! matching velocity axis is inverted and a screen-collision notification is
//! emitted for that entity.

use vstd::prelude::*;
use crate::geometry::Vec2I;

verus! {

/// Notification that an entity bounced off the arena boundary this tick.
#[derive(Clone, Copy, Debug, PartialEq, Eq, Structural)]
pub struct ScreenCollisionEvent {
    pub entity: u64,
}

/// The east or west probe point, offset from the center by twice the
/// half-extent, is at or past the arena's vertical edges.
pub open spec fn hits_x(pos: Vec2I, half_extent: Vec2I, half_width: i64) -> bool {
    pos.x + 2 * half_extent.x >= half_width || pos.x - 2 * half_extent.x <= -half_width
}

/// The south probe is at or past the bottom edge, or the north probe is
/// strictly past the top edge.  The asymmetry between the two comparisons is
/// a deliberate part of the bounce policy: the bottom edge is inclusive, the
/// top edge strict.
pub open spec fn hits_y(pos: Vec2I, half_extent: Vec2I, half_height: i64) -> bool {
    pos.y - 2 * half_extent.y >= half_height || pos.y + 2 * half_extent.y < -half_height
}

/// The velocity an entity has after the boundary check: each axis whose probe
/// crossed the edge is negated exactly once.
pub open spec fn bounced_velocity(
    pos: Vec2I,
    half_extent: Vec2I,
    vel: Vec2I,
    half_width: i64,
    half_height: i64,
) -> Vec2I {
    Vec2I {
        x: if hits_x(pos, half_extent, half_width) { (-vel.x) as i64 } else { vel.x },
        y: if hits_y(pos, half_extent, half_height) { (-vel.y) as i64 } else { vel.y },
    }
}

/// Checks one entity against the arena bounds and flips the velocity axes
/// whose probes crossed an edge; reports whether any axis flipped.
pub fn check_and_bounce(
    pos: Vec2I,
    half_extent: Vec2I,
    vel: Vec2I,
    half_width: i64,
    half_height: i64,
) -> (r: (Vec2I, bool))
    requires
        vel.x != i64::MIN,
        vel.y != i64::MIN,
    ensures
        r.0 == bounced_velocity(pos, half_extent, vel, half_width, half_height),
        r.1 == (hits_x(pos, half_extent, half_width) || hits_y(pos, half_extent, half_height)),
{
    let px = pos.x as i128;
    let py = pos.y as i128;
    let hx = half_extent.x as i128;
    let hy = half_extent.y as i128;
    let hw = half_width as i128;
    let hh = half_height as i128;
    let mut new_vel = vel;
    let mut hit = false;
    if px + 2 * hx >= hw || px - 2 * hx <= -hw {
        new_vel.x = -new_vel.x;
        hit = true;
    }
    if py - 2 * hy >= hh || py + 2 * hy < -hh {
        new_vel.y = -new_vel.y;
        hit = true;
    }
    (new_vel, hit)
}

/// Law: any position whose horizontal distance from the center, plus twice
/// the horizontal half-extent, reaches the arena half-width trips the
/// horizontal bounce — so `check_and_bounce` negates the x velocity exactly
/// once there, whichever of the two probes crossed.
pub proof fn lemma_boundary_flip_x(pos: Vec2I, half_extent: Vec2I, half_width: i64)
    requires
        half_extent.x >= 0,
        vstd::math::abs(pos.x as int) + 2 * half_extent.x >= half_width,
    ensures
        hits_x(pos, half_extent, half_width),
{
}

/// Law: the vertical counterpart.  The bottom edge trips when the south probe
/// reaches the half-height; the top edge only when the north probe is
/// strictly past it, so a probe exactly on the top edge does not bounce.
pub proof fn lemma_boundary_flip_y(pos: Vec2I, half_extent: Vec2I, half_height: i64)
    requires
        half_extent.y >= 0,
        pos.y - 2 * half_extent.y >= half_height || pos.y + 2 * half_extent.y < -half_height,
    ensures
        hits_y(pos, half_extent, half_height),
{
}

} // verus!
