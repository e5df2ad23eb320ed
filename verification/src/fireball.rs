//! Fireballs: the timed spawner, the population, the speed escalation that
//! rescales every live fireball, and their boundary bounces.

use vstd::prelude::*;
use rand::distributions::{Distribution, Uniform};
use crate::game_data::{GameData, ESCALATION_THRESHOLD};
use crate::geometry::Vec2I;
use crate::player::PlayerState;
use crate::screen_bound_collision_detection::{
    bounced_velocity, check_and_bounce, hits_x, hits_y, ScreenCollisionEvent,
};

verus! {

/// The spawn timer's fixed period, in simulated microseconds.
pub const FIREBALL_SPAWN_TIME_MICROS: u64 = 10_000_000;

/// Spawn positions keep this margin, in world units, from each arena edge.
pub const SPAWN_MARGIN: i64 = 100;

/// Radius of a fireball's circular collision shape, in world units.
pub const FIREBALL_RADIUS: i64 = 512;

/// Coordinates the spawner accepts: generous machine bounds under which none
/// of its integer arithmetic can overflow.
pub const COORD_BOUND: i64 = 0x8000_0000;

/// One live fireball.  Its conceptual velocity is the unit vector of
/// `heading` scaled by the speed at escalation level `esc`: the initial
/// speed times (7/4) to that level.  The heading keeps exact integer
/// components; the backend normalizes and scales it.
#[derive(Clone, Copy, Debug, PartialEq, Eq, Structural)]
pub struct FireballState {
    pub id: u64,
    pub pos: Vec2I,
    pub half_extent: Vec2I,
    pub heading: Vec2I,
    pub esc: u64,
}

impl FireballState {
    /// Bounce negation and probe arithmetic stay in range.
    pub open spec fn wf(self) -> bool {
        &&& self.heading.x != i64::MIN
        &&& self.heading.y != i64::MIN
        &&& self.half_extent.x >= 0
        &&& self.half_extent.y >= 0
    }
}

/// Relies on rand: a sample of `Uniform::from(lo..hi)` under `thread_rng`
/// lies in the half-open range `[lo, hi)`.  Nothing is assumed about which
/// value comes back.
#[verifier::external_body]
fn sample_range(lo: i64, hi: i64) -> (r: i64)
    requires
        lo < hi,
    ensures
        lo <= r < hi,
{
    let between = Uniform::from(lo..hi);
    let mut rng = rand::thread_rng();
    between.sample(&mut rng)
}

/// One firing of the spawn timer.  With no live player the tick is a silent
/// no-op: nothing spawns and no counter moves.  Otherwise a fireball appears
/// at a position drawn from the arena interior shrunk by the spawn margin,
/// heading away from the player — along the exact vector from the player's
/// position to the spawn position — at the current escalated speed, and the
/// spawn counter increments.
pub fn spawn_fireball(
    gd: &mut GameData,
    balls: &mut Vec<FireballState>,
    player: &Option<PlayerState>,
    half_width: i64,
    half_height: i64,
    id: u64,
)
    requires
        SPAWN_MARGIN < half_width <= COORD_BOUND,
        SPAWN_MARGIN < half_height <= COORD_BOUND,
        player matches Some(p) ==> -COORD_BOUND <= p.pos.x <= COORD_BOUND
            && -COORD_BOUND <= p.pos.y <= COORD_BOUND,
        old(gd).n_balls < u64::MAX,
    ensures
        player is None ==> *final(gd) == *old(gd) && final(balls)@ == old(balls)@,
        player matches Some(p) ==> {
            &&& final(gd).n_balls == old(gd).n_balls + 1
            &&& final(gd).record == old(gd).record
            &&& final(gd).escalations == old(gd).escalations
            &&& final(balls)@.len() == old(balls)@.len() + 1
            &&& final(balls)@.subrange(0, old(balls)@.len() as int) == old(balls)@
            &&& ({
                let nb = final(balls)@.last();
                &&& nb.id == id
                &&& nb.esc == old(gd).escalations
                &&& -half_width + SPAWN_MARGIN <= nb.pos.x < half_width - SPAWN_MARGIN
                &&& -half_height + SPAWN_MARGIN <= nb.pos.y < half_height - SPAWN_MARGIN
                &&& nb.heading.x == nb.pos.x - p.pos.x
                &&& nb.heading.y == nb.pos.y - p.pos.y
                &&& nb.half_extent.x == 0 && nb.half_extent.y == 0
                &&& nb.wf()
            })
        },
{
    match player {
        None => {},
        Some(p) => {
            let x = sample_range(-half_width + SPAWN_MARGIN, half_width - SPAWN_MARGIN);
            let y = sample_range(-half_height + SPAWN_MARGIN, half_height - SPAWN_MARGIN);
            let pos = Vec2I { x, y };
            let heading = Vec2I { x: x - p.pos.x, y: y - p.pos.y };
            let ball = FireballState {
                id,
                pos,
                half_extent: Vec2I { x: 0, y: 0 },
                heading,
                esc: gd.escalations,
            };
            balls.push(ball);
            gd.n_balls = gd.n_balls + 1;
        },
    }
}

/// Despawns every live fireball in bulk, as happens on leaving the terminal
/// state.
pub fn despawn_fireballs(balls: &mut Vec<FireballState>)
    ensures
        final(balls)@.len() == 0,
{
    *balls = Vec::new();
}

/// The speed-escalation step, run once per tick after physics integration.
/// It is edge-triggered: it fires only when the spawn count has crossed into
/// a new multiple of the threshold since the last application, advances the
/// escalation level to the crossed multiple, and raises every live
/// fireball's speed to the new level — the retroactive rescale of their
/// velocities.  Between crossings it is a no-op, so the multiplier applies
/// exactly once per crossing whatever the tick granularity.
pub fn increase_speed(gd: &mut GameData, balls: &mut Vec<FireballState>)
    requires
        forall|i: int| 0 <= i < old(balls)@.len()
            ==> old(balls)@[i].esc == old(gd).escalations,
    ensures
        final(gd).record == old(gd).record,
        final(gd).n_balls == old(gd).n_balls,
        final(gd).escalations == if old(gd).n_balls / ESCALATION_THRESHOLD > old(gd).escalations {
            old(gd).n_balls / ESCALATION_THRESHOLD
        } else {
            old(gd).escalations
        },
        old(gd).escalations <= old(gd).n_balls / ESCALATION_THRESHOLD
            ==> final(gd).speed_synced(),
        final(balls)@.len() == old(balls)@.len(),
        forall|i: int| 0 <= i < old(balls)@.len() ==> {
            let ob = old(balls)@[i];
            let nb = #[trigger] final(balls)@[i];
            &&& nb.id == ob.id
            &&& nb.pos == ob.pos
            &&& nb.half_extent == ob.half_extent
            &&& nb.heading == ob.heading
            &&& nb.esc == final(gd).escalations
        },
{
    let target = gd.n_balls / ESCALATION_THRESHOLD;
    if target > gd.escalations {
        gd.escalations = target;
        let n = balls.len();
        let mut i: usize = 0;
        while i < n
            invariant
                n == balls@.len(),
                i <= n,
                n == old(balls)@.len(),
                forall|j: int| 0 <= j < i ==> {
                    let ob = old(balls)@[j];
                    let nb = #[trigger] balls@[j];
                    &&& nb.id == ob.id
                    &&& nb.pos == ob.pos
                    &&& nb.half_extent == ob.half_extent
                    &&& nb.heading == ob.heading
                    &&& nb.esc == target
                },
                forall|j: int| i <= j < n ==> balls@[j] == old(balls)@[j],
            decreases n - i,
        {
            let mut b = balls[i];
            b.esc = target;
            balls.set(i, b);
            i = i + 1;
        }
    }
}

/// The sequence of boundary-hit notifications for the fireballs that
/// crossed an arena edge this tick, one per affected fireball, in
/// population order.
pub open spec fn hit_events(
    balls: Seq<FireballState>,
    half_width: i64,
    half_height: i64,
) -> Seq<ScreenCollisionEvent>
    decreases balls.len(),
{
    if balls.len() == 0 {
        Seq::empty()
    } else {
        let rest = hit_events(balls.drop_last(), half_width, half_height);
        let b = balls.last();
        if hits_x(b.pos, b.half_extent, half_width) || hits_y(b.pos, b.half_extent, half_height) {
            rest.push(ScreenCollisionEvent { entity: b.id })
        } else {
            rest
        }
    }
}

/// The fireball hit notifications only ever name fireballs: an entity that
/// is no fireball — the player — never appears among them.
pub proof fn lemma_hit_events_ids(
    balls: Seq<FireballState>,
    half_width: i64,
    half_height: i64,
    id: u64,
)
    requires
        forall|i: int| 0 <= i < balls.len() ==> (#[trigger] balls[i]).id != id,
    ensures
        forall|j: int| 0 <= j < hit_events(balls, half_width, half_height).len()
            ==> (#[trigger] hit_events(balls, half_width, half_height)[j]).entity != id,
    decreases balls.len(),
{
    if balls.len() > 0 {
        assert(forall|i: int| 0 <= i < balls.drop_last().len()
            ==> (#[trigger] balls.drop_last()[i]).id != id);
        lemma_hit_events_ids(balls.drop_last(), half_width, half_height, id);
        let rest = hit_events(balls.drop_last(), half_width, half_height);
        let b = balls.last();
        let evs = hit_events(balls, half_width, half_height);
        if hits_x(b.pos, b.half_extent, half_width) || hits_y(b.pos, b.half_extent, half_height) {
            assert(evs == rest.push(ScreenCollisionEvent { entity: b.id }));
            assert forall|j: int| 0 <= j < evs.len() implies (#[trigger] evs[j]).entity != id by {
                if j < rest.len() {
                    assert(evs[j] == rest[j]);
                } else {
                    assert(evs[j] == ScreenCollisionEvent { entity: b.id });
                }
            }
        } else {
            assert(evs == rest);
        }
    }
}

/// Bounces every live fireball off the arena bounds independently — no
/// pairwise interaction — flipping the heading axes whose probes crossed an
/// edge, and emits one hit notification per affected fireball.
pub fn handle_screen_bound_collisions_fireballs(
    balls: &mut Vec<FireballState>,
    half_width: i64,
    half_height: i64,
) -> (events: Vec<ScreenCollisionEvent>)
    requires
        forall|i: int| 0 <= i < old(balls)@.len() ==> (#[trigger] old(balls)@[i]).wf(),
    ensures
        final(balls)@.len() == old(balls)@.len(),
        forall|i: int| 0 <= i < old(balls)@.len() ==> {
            let ob = old(balls)@[i];
            let nb = #[trigger] final(balls)@[i];
            &&& nb.id == ob.id
            &&& nb.pos == ob.pos
            &&& nb.half_extent == ob.half_extent
            &&& nb.esc == ob.esc
            &&& nb.heading == bounced_velocity(ob.pos, ob.half_extent, ob.heading, half_width, half_height)
            &&& nb.wf()
        },
        events@ == hit_events(old(balls)@, half_width, half_height),
{
    let mut events: Vec<ScreenCollisionEvent> = Vec::new();
    let n = balls.len();
    let mut i: usize = 0;
    while i < n
        invariant
            n == balls@.len(),
            i <= n,
            n == old(balls)@.len(),
            forall|j: int| 0 <= j < old(balls)@.len() ==> (#[trigger] old(balls)@[j]).wf(),
            forall|j: int| i <= j < n ==> balls@[j] == old(balls)@[j],
            forall|j: int| 0 <= j < i ==> {
                let ob = old(balls)@[j];
                let nb = #[trigger] balls@[j];
                &&& nb.id == ob.id
                &&& nb.pos == ob.pos
                &&& nb.half_extent == ob.half_extent
                &&& nb.esc == ob.esc
                &&& nb.heading == bounced_velocity(ob.pos, ob.half_extent, ob.heading, half_width, half_height)
                &&& nb.wf()
            },
            events@ == hit_events(old(balls)@.take(i as int), half_width, half_height),
        decreases n - i,
    {
        let b = balls[i];
        let (new_heading, hit) = check_and_bounce(b.pos, b.half_extent, b.heading, half_width, half_height);
        let mut nb = b;
        nb.heading = new_heading;
        balls.set(i, nb);
        if hit {
            events.push(ScreenCollisionEvent { entity: b.id });
        }
        proof {
            let taken = old(balls)@.take(i + 1);
            assert(taken.drop_last() =~= old(balls)@.take(i as int));
            assert(taken.last() == old(balls)@[i as int]);
        }
        i = i + 1;
    }
    proof {
        assert(old(balls)@.take(n as int) =~= old(balls)@);
    }
    events
}

} // verus!
