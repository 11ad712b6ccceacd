//! Timing decisions of the simulation tick: which periodic tasks run, how
//! distant animals are throttled, when external feeds count as live, and
//! when weather events end.

use vstd::prelude::*;

verus! {

/// Plants are updated at most once per this many milliseconds.
pub const PLANT_UPDATE_INTERVAL_MS: i64 = 1000;
/// Emergency wildlife respawns are checked after more than this long.
pub const SPAWN_CHECK_INTERVAL_MS: i64 = 30000;
/// Plant populations are topped up after more than this long.
pub const PLANT_SPAWN_INTERVAL_MS: i64 = 60000;
/// A status report is logged after more than this long.
pub const STATUS_LOG_INTERVAL_MS: i64 = 30000;
/// Animals far from every player update at most once per this long.
pub const COARSE_UPDATE_INTERVAL_MS: i64 = 1000;
/// External climate data older than this is stale.
pub const CLIMATE_STALE_THRESHOLD_MS: u64 = 5000;
/// External weather data older than this is stale.
pub const WEATHER_STALE_THRESHOLD_MS: u64 = 30000;
/// New weather events are considered this often.
pub const WEATHER_EVENT_CHECK_INTERVAL_MS: i64 = 5000;

/// When each periodic task of a zone last ran (milliseconds; 0 = never).
#[derive(Debug, Clone, Copy, PartialEq, Eq, Structural)]
pub struct TickClock {
    pub last_update_ms: i64,
    pub last_spawn_check_ms: i64,
    pub last_plant_spawn_ms: i64,
    pub last_plant_update_ms: i64,
    pub last_status_log_ms: i64,
}

/// The periodic work of one tick.
#[derive(Debug, Clone, Copy, PartialEq, Eq, Structural)]
pub struct TickPlan {
    /// Update all plants this tick.
    pub update_plants: bool,
    /// Milliseconds since the previous plant update, or None when plants
    /// were never updated (the tick's own delta applies).
    pub plant_elapsed_ms: Option<i64>,
    pub check_spawns: bool,
    pub check_plant_spawns: bool,
    pub log_status: bool,
}

/// Whether `now - last` fits in an i64.
pub open spec fn diff_fits(now: i64, last: i64) -> bool {
    i64::MIN <= now - last <= i64::MAX
}

/// Whether a tick at `now` can be planned against this clock.
pub open spec fn clock_fits(c: TickClock, now: i64) -> bool {
    &&& diff_fits(now, c.last_spawn_check_ms)
    &&& diff_fits(now, c.last_plant_spawn_ms)
    &&& diff_fits(now, c.last_plant_update_ms)
    &&& diff_fits(now, c.last_status_log_ms)
}

/// The plan of a tick at `now`.
pub open spec fn plan_at(c: TickClock, now: i64) -> TickPlan {
    let plants = now - c.last_plant_update_ms >= 1000;
    TickPlan {
        update_plants: plants,
        plant_elapsed_ms: if plants && c.last_plant_update_ms != 0 {
            Some((now - c.last_plant_update_ms) as i64)
        } else {
            None
        },
        check_spawns: now - c.last_spawn_check_ms > 30000,
        check_plant_spawns: now - c.last_plant_spawn_ms > 60000,
        log_status: now - c.last_status_log_ms > 30000,
    }
}

/// The clock after a tick at `now` ran the tasks of its plan.
pub open spec fn clock_after(c: TickClock, now: i64) -> TickClock {
    let p = plan_at(c, now);
    TickClock {
        last_update_ms: now,
        last_spawn_check_ms: if p.check_spawns {
            now
        } else {
            c.last_spawn_check_ms
        },
        last_plant_spawn_ms: if p.check_plant_spawns {
            now
        } else {
            c.last_plant_spawn_ms
        },
        last_plant_update_ms: if p.update_plants {
            now
        } else {
            c.last_plant_update_ms
        },
        last_status_log_ms: if p.log_status {
            now
        } else {
            c.last_status_log_ms
        },
    }
}

impl TickClock {
    /// A clock on which nothing has run yet.
    pub fn new() -> (c: Self)
        ensures
            c == (TickClock {
                last_update_ms: 0,
                last_spawn_check_ms: 0,
                last_plant_spawn_ms: 0,
                last_plant_update_ms: 0,
                last_status_log_ms: 0,
            }),
    {
        TickClock {
            last_update_ms: 0,
            last_spawn_check_ms: 0,
            last_plant_spawn_ms: 0,
            last_plant_update_ms: 0,
            last_status_log_ms: 0,
        }
    }

    /// Decides the periodic work of a tick at `now_ms` and records it: plants
    /// update once a second, emergency respawns and status reports every 30
    /// seconds, plant top-ups every 60 seconds.
    pub fn plan_tick(&mut self, now_ms: i64) -> (p: TickPlan)
        requires
            clock_fits(*old(self), now_ms),
        ensures
            p == plan_at(*old(self), now_ms),
            *final(self) == clock_after(*old(self), now_ms),
    {
        let update_plants = now_ms - self.last_plant_update_ms >= PLANT_UPDATE_INTERVAL_MS;
        let plant_elapsed_ms = if update_plants && self.last_plant_update_ms != 0 {
            Some(now_ms - self.last_plant_update_ms)
        } else {
            None
        };
        if update_plants {
            self.last_plant_update_ms = now_ms;
        }
        let check_spawns = now_ms - self.last_spawn_check_ms > SPAWN_CHECK_INTERVAL_MS;
        if check_spawns {
            self.last_spawn_check_ms = now_ms;
        }
        let check_plant_spawns = now_ms - self.last_plant_spawn_ms > PLANT_SPAWN_INTERVAL_MS;
        if check_plant_spawns {
            self.last_plant_spawn_ms = now_ms;
        }
        let log_status = now_ms - self.last_status_log_ms > STATUS_LOG_INTERVAL_MS;
        if log_status {
            self.last_status_log_ms = now_ms;
        }
        self.last_update_ms = now_ms;
        TickPlan { update_plants, plant_elapsed_ms, check_spawns, check_plant_spawns, log_status }
    }
}

/// A second tick at the same instant runs none of the periodic tasks again:
/// each task runs at most once per instant.
pub proof fn lemma_plan_is_idempotent(c: TickClock, now: i64)
    requires
        clock_fits(c, now),
    ensures
        clock_fits(clock_after(c, now), now),
        !plan_at(clock_after(c, now), now).update_plants,
        !plan_at(clock_after(c, now), now).check_spawns,
        !plan_at(clock_after(c, now), now).check_plant_spawns,
        !plan_at(clock_after(c, now), now).log_status,
        clock_after(clock_after(c, now), now) == clock_after(c, now),
{
}

/// How an animal is simulated this tick.
#[derive(Debug, Clone, Copy, PartialEq, Eq, Structural)]
pub enum EntityUpdate {
    /// Near a player: full simulation every tick.
    Full,
    /// Far from players and due: a coarse update; the milliseconds since its
    /// last update, or None when it was never updated.
    Coarse(Option<i64>),
    /// Far from players and updated less than a second ago.
    Skip,
}

/// How an animal is simulated this tick.
pub open spec fn update_mode_of(near_player: bool, now: i64, last_tick: i64) -> EntityUpdate {
    if near_player {
        EntityUpdate::Full
    } else if now - last_tick >= 1000 {
        EntityUpdate::Coarse(
            if last_tick == 0 {
                None
            } else {
                Some((now - last_tick) as i64)
            },
        )
    } else {
        EntityUpdate::Skip
    }
}

/// Level of detail of an animal's update: full near players, at most once a
/// second elsewhere.
pub fn entity_update_mode(near_player: bool, now_ms: i64, last_tick_ms: i64) -> (m: EntityUpdate)
    requires
        near_player || diff_fits(now_ms, last_tick_ms),
    ensures
        m == update_mode_of(near_player, now_ms, last_tick_ms),
{
    if near_player {
        EntityUpdate::Full
    } else if now_ms - last_tick_ms >= COARSE_UPDATE_INTERVAL_MS {
        if last_tick_ms == 0 {
            EntityUpdate::Coarse(None)
        } else {
            EntityUpdate::Coarse(Some(now_ms - last_tick_ms))
        }
    } else {
        EntityUpdate::Skip
    }
}

/// Whether an external feed counts as live: it has reported at least once,
/// and its last report is less than `threshold_ms` old.
pub open spec fn fresh(last_received_ms: u64, now_ms: u64, threshold_ms: u64) -> bool {
    last_received_ms != 0 && (if now_ms >= last_received_ms {
        now_ms - last_received_ms
    } else {
        0
    }) < threshold_ms
}

/// Whether an external feed (climate or weather) is live at `now_ms`.
pub fn feed_is_fresh(last_received_ms: u64, now_ms: u64, threshold_ms: u64) -> (r: bool)
    ensures
        r == fresh(last_received_ms, now_ms, threshold_ms),
{
    if last_received_ms == 0 {
        return false;
    }
    now_ms.saturating_sub(last_received_ms) < threshold_ms
}

/// A live feed stays live for a larger threshold, and a feed that never
/// reported is never live.
pub proof fn lemma_freshness_monotone(last: u64, now: u64, t1: u64, t2: u64)
    ensures
        fresh(last, now, t1) && t1 <= t2 ==> fresh(last, now, t2),
        !fresh(0, now, t1),
{
}

/// Whether a weather event that started at `start_time_ms` and lasts
/// `duration_ms` is still running at `now_ms`.
pub fn event_still_running(now_ms: i64, start_time_ms: i64, duration_ms: i64) -> (r: bool)
    requires
        diff_fits(now_ms, start_time_ms),
    ensures
        r == (now_ms - start_time_ms < duration_ms),
{
    now_ms - start_time_ms < duration_ms
}

/// Whether new weather events are considered at `now_ms`, and when they are
/// considered next: every 5 seconds once due.
pub fn weather_check_due(now_ms: i64, next_check_ms: i64) -> (r: (bool, i64))
    requires
        now_ms >= next_check_ms ==> now_ms + 5000 <= i64::MAX,
    ensures
        r.0 == (now_ms >= next_check_ms),
        r.1 == if now_ms >= next_check_ms {
            now_ms + 5000
        } else {
            next_check_ms as int
        },
{
    if now_ms >= next_check_ms {
        (true, now_ms + WEATHER_EVENT_CHECK_INTERVAL_MS)
    } else {
        (false, next_check_ms)
    }
}

} // verus!
