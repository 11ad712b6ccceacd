use wildlife_sim::bridge::MockBridge;
use wildlife_sim::cache::flora_cache_path;
use wildlife_sim::movement::{
    birth_due, gait_for, is_potential_mate, is_urgent_behavior, needs_new_path, path_stale_after_ms, plant_variant,
    should_initiate_pregnancy, spawn_sexes, Gait, PathProgress,
};
use wildlife_sim::raster::BoolRaster;
use wildlife_sim::service::{choose_tile, offline_zone_id, players_in_zone, retry_delay_secs};
use wildlife_sim::types::{BehaviorState, Sex};

#[test]
fn mock_bridge_is_fifo() {
    let mut b: MockBridge<u32, &str> = MockBridge::new();
    assert_eq!(b.try_recv(), None);
    b.incoming_messages.push(1);
    b.incoming_messages.push(2);
    assert_eq!(b.try_recv(), Some(1));
    assert_eq!(b.try_recv(), Some(2));
    assert_eq!(b.try_recv(), None);
    b.publish_events(vec!["spawn", "move"]);
    b.publish_events(vec!["death"]);
    assert_eq!(b.outgoing_events, vec!["spawn", "move", "death"]);
}

#[test]
fn cache_path() {
    assert_eq!(flora_cache_path("stephentown"), "data/stephentown/flora_v5.json");
    assert_eq!(flora_cache_path(""), "data//flora_v5.json");
}

#[test]
fn gaits_and_paths() {
    assert_eq!(gait_for(BehaviorState::Fleeing), Gait::Sprint);
    assert_eq!(gait_for(BehaviorState::Hunting), Gait::Run);
    assert_eq!(gait_for(BehaviorState::SeekingMate), Gait::Run);
    assert_eq!(gait_for(BehaviorState::Stalking), Gait::Creep);
    assert_eq!(gait_for(BehaviorState::Wandering), Gait::Amble);
    assert_eq!(gait_for(BehaviorState::Foraging), Gait::Amble);
    assert_eq!(gait_for(BehaviorState::Hibernating), Gait::Still);
    assert_eq!(gait_for(BehaviorState::Drinking), Gait::Still);
    assert!(is_urgent_behavior(BehaviorState::Stalking));
    assert!(!is_urgent_behavior(BehaviorState::Wandering));
    assert_eq!(path_stale_after_ms(BehaviorState::Fleeing), 2000);
    assert_eq!(path_stale_after_ms(BehaviorState::Resting), 10000);
    let fresh = PathProgress { current_index: 1, waypoint_count: 4, computed_at_ms: 10_000 };
    assert!(needs_new_path(None, false, 10_000, BehaviorState::Wandering));
    assert!(!needs_new_path(Some(fresh), false, 12_000, BehaviorState::Hunting));
    assert!(needs_new_path(Some(fresh), false, 12_001, BehaviorState::Hunting));
    assert!(!needs_new_path(Some(fresh), false, 12_001, BehaviorState::Wandering));
    assert!(needs_new_path(Some(fresh), true, 10_000, BehaviorState::Wandering));
    let done = PathProgress { current_index: 4, waypoint_count: 4, computed_at_ms: 10_000 };
    assert!(needs_new_path(Some(done), false, 10_000, BehaviorState::Wandering));
}

#[test]
fn reproduction_rules() {
    assert!(birth_due(true, Some(100), 100));
    assert!(!birth_due(true, Some(101), 100));
    assert!(!birth_due(true, None, 100));
    assert!(!birth_due(false, Some(0), 100));
    assert!(should_initiate_pregnancy(BehaviorState::Mating, Sex::Female, false, true));
    assert!(!should_initiate_pregnancy(BehaviorState::Mating, Sex::Male, false, true));
    assert!(!should_initiate_pregnancy(BehaviorState::Mating, Sex::Female, true, true));
    assert!(!should_initiate_pregnancy(BehaviorState::Mating, Sex::Female, false, false));
    assert!(!should_initiate_pregnancy(BehaviorState::SeekingMate, Sex::Female, false, true));
    assert!(!is_potential_mate("deer", Sex::Male, "deer", true, Sex::Female, true));
    assert!(is_potential_mate("deer", Sex::Male, "deer", true, Sex::Female, false));
    assert!(is_potential_mate("deer", Sex::Female, "deer", true, Sex::Male, false));
    assert!(!is_potential_mate("deer", Sex::Female, "deer", true, Sex::Female, false));
    assert!(!is_potential_mate("deer", Sex::Female, "deer", true, Sex::Male, true));
    assert!(!is_potential_mate("deer", Sex::Male, "wolf", true, Sex::Female, false));
    assert!(!is_potential_mate("deer", Sex::Male, "deer", false, Sex::Female, false));
    assert_eq!(spawn_sexes(2, 3), vec![Sex::Male, Sex::Male, Sex::Female, Sex::Female, Sex::Female]);
    assert!(spawn_sexes(0, 0).is_empty());
    assert_eq!(plant_variant(12), 2);
    assert_eq!(plant_variant(5), 0);
}

#[test]
fn rasters() {
    let r = BoolRaster::new_empty(3, 2);
    assert_eq!((r.cols(), r.rows()), (3, 2));
    assert!(!r.is_set(2, 1));
    let r = r.marked(2, 1);
    assert!(r.is_set(2, 1));
    assert!(!r.is_set(1, 2));
    assert!(!r.is_set(3, 0));
    assert!(!r.is_set(0, 5));
}

#[test]
fn service_choices() {
    let ids = vec!["14_1_2".to_string(), "stephentown".to_string(), "stephentown".to_string()];
    assert_eq!(choose_tile(&ids, "stephentown"), Some(1));
    assert_eq!(choose_tile(&ids, "elsewhere"), Some(0));
    assert_eq!(choose_tile(&Vec::new(), "x"), None);
    assert_eq!(retry_delay_secs(1, 5), Some(2));
    assert_eq!(retry_delay_secs(4, 5), Some(8));
    assert_eq!(retry_delay_secs(5, 5), None);
    assert_eq!(offline_zone_id("all"), "test_zone");
    assert_eq!(offline_zone_id("stephentown"), "stephentown");
}

#[test]
fn players_are_routed_to_their_zones() {
    let zones: Vec<String> = ["a", "b", "a", "c", "a"].iter().map(|s| s.to_string()).collect();
    assert_eq!(players_in_zone(&zones, "a"), vec![0, 2, 4]);
    assert_eq!(players_in_zone(&zones, "b"), vec![1]);
    assert_eq!(players_in_zone(&zones, "d"), Vec::<usize>::new());
    assert_eq!(players_in_zone(&Vec::new(), "a"), Vec::<usize>::new());
}
