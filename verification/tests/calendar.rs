use wildlife_sim::climate::{clamp_day_of_year, next_calendar_day, season_for_day, Season};
use wildlife_sim::types::{BehaviorState, SizeClass, SPECIAL_CHARGE_MAX};

#[test]
fn test_seasons() {
    assert_eq!(season_for_day(1), Season::Winter);
    assert_eq!(season_for_day(100), Season::Spring);
    assert_eq!(season_for_day(200), Season::Summer);
    assert_eq!(season_for_day(300), Season::Fall);
}

#[test]
fn season_boundaries() {
    assert_eq!(season_for_day(79), Season::Winter);
    assert_eq!(season_for_day(80), Season::Spring);
    assert_eq!(season_for_day(171), Season::Spring);
    assert_eq!(season_for_day(172), Season::Summer);
    assert_eq!(season_for_day(265), Season::Summer);
    assert_eq!(season_for_day(266), Season::Fall);
    assert_eq!(season_for_day(354), Season::Fall);
    assert_eq!(season_for_day(355), Season::Winter);
    assert_eq!(season_for_day(365), Season::Winter);
    // Outside the year: spring.
    assert_eq!(season_for_day(0), Season::Spring);
    assert_eq!(season_for_day(400), Season::Spring);
}

#[test]
fn year_rolls_over_after_day_365() {
    assert_eq!(next_calendar_day(365, 1), (1, 2));
    assert_eq!(next_calendar_day(364, 1), (365, 1));
    assert_eq!(next_calendar_day(80, 7), (81, 7));
}

#[test]
fn full_year_of_rollovers_returns_to_same_day() {
    let (mut day, mut year) = (80u16, 1u32);
    for _ in 0..365 {
        let next = next_calendar_day(day, year);
        day = next.0;
        year = next.1;
    }
    assert_eq!((day, year), (80, 2));
}

#[test]
fn rollover_never_skips_a_season() {
    let order = [Season::Winter, Season::Spring, Season::Summer, Season::Fall];
    for day in 1u16..=365 {
        let now = season_for_day(day);
        let next = season_for_day(next_calendar_day(day, 1).0);
        let i = order.iter().position(|s| *s == now).unwrap();
        assert!(next == now || next == order[(i + 1) % 4]);
    }
}

#[test]
fn starting_day_is_clamped() {
    assert_eq!(clamp_day_of_year(0), 1);
    assert_eq!(clamp_day_of_year(1), 1);
    assert_eq!(clamp_day_of_year(200), 200);
    assert_eq!(clamp_day_of_year(365), 365);
    assert_eq!(clamp_day_of_year(366), 365);
}

#[test]
fn size_class_values() {
    assert_eq!(SizeClass::Tiny.value(), 1);
    assert_eq!(SizeClass::Small.value(), 2);
    assert_eq!(SizeClass::Medium.value(), 3);
    assert_eq!(SizeClass::Large.value(), 4);
    assert_eq!(SizeClass::Huge.value(), 5);
    assert!(SizeClass::Tiny < SizeClass::Huge);
}

#[test]
fn behavior_priorities() {
    assert_eq!(BehaviorState::Dead.priority(), 100);
    assert_eq!(BehaviorState::Dying.priority(), 99);
    assert_eq!(BehaviorState::Fleeing.priority(), 90);
    assert_eq!(BehaviorState::Attacking.priority(), 85);
    assert_eq!(BehaviorState::Hibernating.priority(), 80);
    assert_eq!(BehaviorState::Defending.priority(), 80);
    assert_eq!(BehaviorState::Drinking.priority(), 70);
    assert_eq!(BehaviorState::Eating.priority(), 65);
    assert_eq!(BehaviorState::Foraging.priority(), 35);
    assert_eq!(BehaviorState::Hunting.priority(), 45);
    assert_eq!(BehaviorState::Stalking.priority(), 40);
    assert_eq!(BehaviorState::SeekingMate.priority(), 50);
    assert_eq!(BehaviorState::Mating.priority(), 55);
    assert_eq!(BehaviorState::Resting.priority(), 60);
    assert_eq!(BehaviorState::Wandering.priority(), 20);
    assert_eq!(BehaviorState::Idle.priority(), 10);
    assert_eq!(SPECIAL_CHARGE_MAX, 5);
}

#[test]
fn priority_tiers_follow_needs() {
    // Survival above health above reproduction above other activities.
    let p = |b: BehaviorState| b.priority();
    let survival = p(BehaviorState::Fleeing).min(p(BehaviorState::Drinking)).min(p(BehaviorState::Eating));
    assert!(survival > p(BehaviorState::Resting));
    assert!(p(BehaviorState::Resting) > p(BehaviorState::SeekingMate));
    assert!(p(BehaviorState::SeekingMate) > p(BehaviorState::Hunting).max(p(BehaviorState::Foraging)));
    assert!(p(BehaviorState::Hunting).max(p(BehaviorState::Foraging)) > p(BehaviorState::Wandering));
}
