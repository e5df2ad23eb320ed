//! Run-scoped counters and the best-score bookkeeping: fireballs spawned this
//! run, the speed-escalation level, and the persisted record.

use vstd::prelude::*;
use vstd::arithmetic::power::pow;

verus! {

/// The fireball speed every run starts from, in world units per second.
pub const INITIAL_FIREBALL_SPEED: u64 = 40;

/// The speed multiplier applied at every escalation, as an exact fraction:
/// 7/4, i.e. 1.75.
pub const SPEED_MULTIPLIER_NUM: u64 = 7;

/// Denominator of the escalation multiplier.
pub const SPEED_MULTIPLIER_DEN: u64 = 4;

/// A new escalation fires each time the spawn count crosses a multiple of
/// this threshold.
pub const ESCALATION_THRESHOLD: u64 = 10;

/// The run-scoped counters.  `record` persists across runs and only grows;
/// the other fields reset on every entry into the running state.  The
/// current fireball speed is carried exactly as the escalation level: its
/// value is `INITIAL_FIREBALL_SPEED` times (7/4) to the power `escalations`,
/// see `speed_num` and `speed_den`.
#[derive(Clone, Copy, Debug, PartialEq, Eq, Structural)]
pub struct GameData {
    pub record: u64,
    pub n_balls: u64,
    pub escalations: u64,
}

impl GameData {
    /// Numerator of the current fireball speed as an exact rational:
    /// initial speed times 7 to the escalation level.
    pub open spec fn speed_num(self) -> int {
        INITIAL_FIREBALL_SPEED * pow(SPEED_MULTIPLIER_NUM as int, self.escalations as nat)
    }

    /// Denominator of the current fireball speed: 4 to the escalation level.
    pub open spec fn speed_den(self) -> int {
        pow(SPEED_MULTIPLIER_DEN as int, self.escalations as nat)
    }

    /// The escalation level has caught up with the spawn count: one
    /// multiplier application per crossed multiple of the threshold.
    pub open spec fn speed_synced(self) -> bool {
        self.escalations == self.n_balls / ESCALATION_THRESHOLD
    }
}

impl Default for GameData {
    /// A fresh run: no record yet, nothing spawned, speed at its initial
    /// value.
    fn default() -> (r: Self)
        ensures
            r.record == 0,
            r.n_balls == 0,
            r.escalations == 0,
            r.speed_num() == INITIAL_FIREBALL_SPEED,
            r.speed_den() == 1,
    {
        proof {
            vstd::arithmetic::power::lemma_pow0(SPEED_MULTIPLIER_NUM as int);
            vstd::arithmetic::power::lemma_pow0(SPEED_MULTIPLIER_DEN as int);
        }
        GameData { record: 0, n_balls: 0, escalations: 0 }
    }
}

/// Law: while the escalation level is synced with the spawn count, the
/// current speed equals the initial speed times (7/4) to the power
/// `n_balls / 10` — after 10 spawns one multiplier application, after 20
/// two, and so on.
pub proof fn lemma_speed_tracks_spawns(gd: GameData)
    requires
        gd.speed_synced(),
    ensures
        gd.speed_num() == INITIAL_FIREBALL_SPEED
            * pow(SPEED_MULTIPLIER_NUM as int, (gd.n_balls / ESCALATION_THRESHOLD) as nat),
        gd.speed_den() == pow(SPEED_MULTIPLIER_DEN as int, (gd.n_balls / ESCALATION_THRESHOLD) as nat),
{
}

/// Law: once synced, the escalation trigger is off — the multiplier cannot
/// apply a second time for the same crossing, whatever the tick granularity.
pub proof fn lemma_escalation_once_per_crossing(gd: GameData)
    requires
        gd.speed_synced(),
    ensures
        !(gd.n_balls / ESCALATION_THRESHOLD > gd.escalations),
{
}

/// Applies the record loaded from the persistent store at startup.  A
/// missing stored value is not an error: the record defaults to zero and the
/// returned value asks the caller to persist that default.
pub fn apply_loaded_record(gd: &mut GameData, loaded: Option<u64>) -> (write_default: Option<u64>)
    ensures
        final(gd).n_balls == old(gd).n_balls,
        final(gd).escalations == old(gd).escalations,
        loaded matches Some(v) ==> final(gd).record == v && write_default is None,
        loaded is None ==> final(gd).record == 0 && write_default == Some(0u64),
{
    match loaded {
        Some(v) => {
            gd.record = v;
            None
        },
        None => {
            gd.record = 0;
            Some(0)
        },
    }
}

/// Commits the run's score when it beats the record: returns the value to
/// persist exactly when the spawn count exceeds the stored record, and
/// leaves the record (and so the store) untouched otherwise.
pub fn store_new_record(gd: &mut GameData) -> (r: Option<u64>)
    ensures
        final(gd).n_balls == old(gd).n_balls,
        final(gd).escalations == old(gd).escalations,
        old(gd).n_balls > old(gd).record ==> {
            &&& final(gd).record == old(gd).n_balls
            &&& r == Some(old(gd).n_balls)
        },
        old(gd).n_balls <= old(gd).record ==> {
            &&& *final(gd) == *old(gd)
            &&& r is None
        },
{
    if gd.n_balls > gd.record {
        gd.record = gd.n_balls;
        Some(gd.n_balls)
    } else {
        None
    }
}

/// Resets the run counters on entry into a fresh run: spawn count to zero
/// and speed back to the initial value.  The record survives.
pub fn reset_score(gd: &mut GameData)
    ensures
        final(gd).record == old(gd).record,
        final(gd).n_balls == 0,
        final(gd).escalations == 0,
        final(gd).speed_num() == INITIAL_FIREBALL_SPEED,
        final(gd).speed_den() == 1,
        final(gd).speed_synced(),
{
    proof {
        vstd::arithmetic::power::lemma_pow0(SPEED_MULTIPLIER_NUM as int);
        vstd::arithmetic::power::lemma_pow0(SPEED_MULTIPLIER_DEN as int);
    }
    gd.n_balls = 0;
    gd.escalations = 0;
}

} // verus!
