use wildlife_sim::schedule::{
    entity_update_mode, event_still_running, feed_is_fresh, weather_check_due, EntityUpdate, TickClock, TickPlan,
    CLIMATE_STALE_THRESHOLD_MS, WEATHER_STALE_THRESHOLD_MS,
};

#[test]
fn first_tick_runs_everything_once() {
    let mut c = TickClock::new();
    let p = c.plan_tick(100_000);
    assert_eq!(
        p,
        TickPlan { update_plants: true, plant_elapsed_ms: None, check_spawns: true, check_plant_spawns: true, log_status: true }
    );
    assert_eq!(c.last_update_ms, 100_000);
    // Same instant again: nothing periodic runs.
    let again = c.plan_tick(100_000);
    assert_eq!(
        again,
        TickPlan { update_plants: false, plant_elapsed_ms: None, check_spawns: false, check_plant_spawns: false, log_status: false }
    );
}

#[test]
fn periodic_tasks_follow_their_intervals() {
    let mut c = TickClock::new();
    c.plan_tick(100_000);
    let p = c.plan_tick(101_000);
    assert!(p.update_plants);
    assert_eq!(p.plant_elapsed_ms, Some(1000));
    assert!(!p.check_spawns);
    let p = c.plan_tick(130_000);
    assert!(!p.check_spawns); // exactly 30 s: not more than 30 s
    let p = c.plan_tick(130_001);
    assert!(p.check_spawns && p.log_status && !p.check_plant_spawns);
    let p = c.plan_tick(160_001);
    assert!(p.check_plant_spawns);
    assert_eq!(c.last_plant_spawn_ms, 160_001);
    assert_eq!(c.last_spawn_check_ms, 130_001); // 30 s exactly: not due yet
}

#[test]
fn distant_animals_update_once_a_second() {
    assert_eq!(entity_update_mode(true, 5_000, 4_999), EntityUpdate::Full);
    assert_eq!(entity_update_mode(false, 5_000, 4_500), EntityUpdate::Skip);
    assert_eq!(entity_update_mode(false, 5_000, 4_000), EntityUpdate::Coarse(Some(1000)));
    assert_eq!(entity_update_mode(false, 5_000, 0), EntityUpdate::Coarse(None));
}

#[test]
fn feeds_go_stale() {
    assert!(!feed_is_fresh(0, 10_000, CLIMATE_STALE_THRESHOLD_MS));
    assert!(feed_is_fresh(6_000, 10_000, CLIMATE_STALE_THRESHOLD_MS));
    assert!(!feed_is_fresh(5_000, 10_000, CLIMATE_STALE_THRESHOLD_MS));
    assert!(feed_is_fresh(5_000, 10_000, WEATHER_STALE_THRESHOLD_MS));
    // A report from the future is fresh.
    assert!(feed_is_fresh(20_000, 10_000, CLIMATE_STALE_THRESHOLD_MS));
}

#[test]
fn weather_event_lifetimes_and_checks() {
    assert!(event_still_running(1_000, 0, 60_000));
    assert!(!event_still_running(60_000, 0, 60_000));
    assert_eq!(weather_check_due(10_000, 10_000), (true, 15_000));
    assert_eq!(weather_check_due(9_999, 10_000), (false, 10_000));
}
