use wildlife_sim::behavior::{
    is_prey, is_threat, select_behavior, BehaviorDecision, BehaviorInputs, DecisionTarget, NeedLevel, PreySense,
    SpeciesTraits, ThreatSense,
};
use wildlife_sim::climate::Season;
use wildlife_sim::types::{BehaviorState, DietType, SizeClass};

fn need(v: f64) -> NeedLevel {
    NeedLevel {
        above_comfortable: v > 60.0,
        below_comfortable: v < 60.0,
        above_low: v > 30.0,
        below_low: v < 30.0,
        below_critical: v < 15.0,
    }
}

fn rabbit() -> SpeciesTraits {
    SpeciesTraits { diet_type: DietType::Prey, size_class: SizeClass::Tiny, is_herbivore: true, nocturnal: false }
}

fn fox() -> SpeciesTraits {
    SpeciesTraits { diet_type: DietType::Hybrid, size_class: SizeClass::Small, is_herbivore: false, nocturnal: true }
}

fn wolf() -> SpeciesTraits {
    SpeciesTraits { diet_type: DietType::Predator, size_class: SizeClass::Medium, is_herbivore: false, nocturnal: false }
}

fn calm(species: SpeciesTraits) -> BehaviorInputs {
    let temperature = 0.1f64;
    BehaviorInputs {
        is_alive: true,
        fleeing_now: false,
        is_mature: true,
        is_pregnant: false,
        hunger: need(70.0),
        thirst: need(70.0),
        energy: need(80.0),
        reproduction: need(20.0),
        mate_priority: (40.0 + (20.0f64 - 60.0) * 0.3) as i32,
        species,
        season: Season::Spring,
        is_night: false,
        severe_cold: temperature < -0.5,
        hibernation_cold: temperature < -0.2,
        mild_for_cold_stress: temperature >= -0.3,
        below_heat_limit: temperature < 0.5,
        nearest_threat: None,
        nearest_prey: None,
        prey_count: 0,
        nearest_food_out_of_reach: None,
        nearest_water_in_reach: None,
        nearest_mate_in_reach: None,
        hazard_nearby: false,
    }
}

fn d(behavior: BehaviorState, target: DecisionTarget, priority: i32) -> BehaviorDecision {
    BehaviorDecision { behavior, target, priority }
}

#[test]
fn dead_animals_stay_dead() {
    let mut i = calm(rabbit());
    i.is_alive = false;
    i.hazard_nearby = true;
    assert_eq!(select_behavior(&i), d(BehaviorState::Dead, DecisionTarget::Nothing, 100));
}

#[test]
fn content_animal_wanders() {
    assert_eq!(select_behavior(&calm(rabbit())), d(BehaviorState::Wandering, DecisionTarget::Nothing, 20));
}

#[test]
fn prey_flees_from_close_threat() {
    let mut i = calm(rabbit());
    i.nearest_threat = Some(ThreatSense { very_close: true, close: true, within_half_sight: true });
    assert_eq!(select_behavior(&i), d(BehaviorState::Fleeing, DecisionTarget::NearestThreat, 105));
    i.fleeing_now = true;
    assert_eq!(select_behavior(&i).priority, 115);
    i.nearest_threat = Some(ThreatSense { very_close: false, close: true, within_half_sight: false });
    assert_eq!(select_behavior(&i).priority, 105);
}

#[test]
fn threatened_prey_flees_whatever_else_it_needs() {
    let mut i = calm(rabbit());
    // A distant threat, while critically thirsty next to water, hungry next
    // to food, and cold: fleeing (90) still wins over drinking (85) and cold
    // stress (75).
    i.nearest_threat = Some(ThreatSense { very_close: false, close: false, within_half_sight: false });
    i.thirst = need(5.0);
    i.hunger = need(5.0);
    i.energy = need(5.0);
    i.nearest_water_in_reach = Some(true);
    i.nearest_food_out_of_reach = Some(false);
    i.mild_for_cold_stress = false;
    assert_eq!(select_behavior(&i), d(BehaviorState::Fleeing, DecisionTarget::NearestThreat, 90));
    // A storm at the same priority comes first, and is a flight too.
    i.hazard_nearby = true;
    assert_eq!(select_behavior(&i), d(BehaviorState::Fleeing, DecisionTarget::NearestHazard, 90));
}

#[test]
fn threatened_hybrid_flees_before_drinking() {
    let mut i = calm(fox());
    i.nearest_threat = Some(ThreatSense { very_close: false, close: false, within_half_sight: false });
    i.thirst = need(5.0);
    i.nearest_water_in_reach = Some(true);
    assert_eq!(select_behavior(&i), d(BehaviorState::Fleeing, DecisionTarget::NearestThreat, 90));
}

#[test]
fn threatened_predator_flees_too() {
    let mut i = calm(wolf());
    i.nearest_threat = Some(ThreatSense { very_close: true, close: true, within_half_sight: true });
    assert_eq!(select_behavior(&i), d(BehaviorState::Fleeing, DecisionTarget::NearestThreat, 105));
    // A starving wolf with scarce prey ties desperate hunting (90) with a
    // distant threat (90): the flight is evaluated first and wins.
    i.nearest_threat = Some(ThreatSense { very_close: false, close: false, within_half_sight: false });
    i.hunger = need(10.0);
    i.nearest_prey = Some(PreySense { very_close: false, beyond_strike: true });
    i.prey_count = 1;
    assert_eq!(select_behavior(&i), d(BehaviorState::Fleeing, DecisionTarget::NearestThreat, 90));
}

#[test]
fn storm_beats_everything_but_fear() {
    let mut i = calm(rabbit());
    i.hazard_nearby = true;
    assert_eq!(select_behavior(&i), d(BehaviorState::Fleeing, DecisionTarget::NearestHazard, 90));
}

#[test]
fn hungry_fox_stalks_distant_prey() {
    let mut i = calm(fox());
    i.hunger = need(50.0);
    i.nearest_prey = Some(PreySense { very_close: false, beyond_strike: true });
    i.prey_count = 5;
    assert_eq!(select_behavior(&i), d(BehaviorState::Stalking, DecisionTarget::NearestPrey, 55));
    i.nearest_prey = Some(PreySense { very_close: true, beyond_strike: false });
    assert_eq!(select_behavior(&i), d(BehaviorState::Hunting, DecisionTarget::NearestPrey, 65));
}

#[test]
fn starving_predator_hunts_desperately_when_prey_is_scarce() {
    let mut i = calm(wolf());
    i.hunger = need(10.0);
    i.nearest_prey = Some(PreySense { very_close: false, beyond_strike: true });
    i.prey_count = 1;
    // Desperate hunting (90) outranks the normal hunt (55 + 25 = 80).
    assert_eq!(select_behavior(&i), d(BehaviorState::Hunting, DecisionTarget::NearestPrey, 90));
    // Two prey nearby are not scarce: only the normal hunt remains.
    i.prey_count = 2;
    assert_eq!(select_behavior(&i), d(BehaviorState::Stalking, DecisionTarget::NearestPrey, 80));
    i.prey_count = 3;
    assert_eq!(select_behavior(&i), d(BehaviorState::Stalking, DecisionTarget::NearestPrey, 80));
}

#[test]
fn thirst_drives_to_water() {
    let mut i = calm(rabbit());
    i.thirst = need(20.0);
    assert_eq!(select_behavior(&i), d(BehaviorState::Wandering, DecisionTarget::Nothing, 30));
    i.nearest_water_in_reach = Some(false);
    assert_eq!(select_behavior(&i), d(BehaviorState::Wandering, DecisionTarget::NearestWater, 45));
    i.nearest_water_in_reach = Some(true);
    assert_eq!(select_behavior(&i), d(BehaviorState::Drinking, DecisionTarget::NearestWater, 50));
    i.thirst = need(10.0);
    assert_eq!(select_behavior(&i), d(BehaviorState::Drinking, DecisionTarget::NearestWater, 85));
}

#[test]
fn hungry_herbivore_eats_food_in_reach() {
    let mut i = calm(rabbit());
    i.hunger = need(25.0);
    assert_eq!(select_behavior(&i), d(BehaviorState::Foraging, DecisionTarget::Nothing, 60));
    i.nearest_food_out_of_reach = Some(true);
    assert_eq!(select_behavior(&i), d(BehaviorState::Foraging, DecisionTarget::NearestFood, 60));
    i.nearest_food_out_of_reach = Some(false);
    assert_eq!(select_behavior(&i), d(BehaviorState::Eating, DecisionTarget::NearestFood, 65));
    i.hunger = need(5.0);
    assert_eq!(select_behavior(&i), d(BehaviorState::Eating, DecisionTarget::NearestFood, 80));
}

#[test]
fn tired_animals_rest_in_their_off_hours() {
    let mut i = calm(rabbit());
    i.energy = need(20.0);
    assert_eq!(select_behavior(&i), d(BehaviorState::Resting, DecisionTarget::Nothing, 30));
    i.is_night = true;
    assert_eq!(select_behavior(&i), d(BehaviorState::Resting, DecisionTarget::Nothing, 50));
    let mut f = calm(fox());
    f.energy = need(10.0);
    assert_eq!(select_behavior(&f), d(BehaviorState::Resting, DecisionTarget::Nothing, 70));
}

#[test]
fn mating_needs_maturity_and_calm() {
    let mut i = calm(rabbit());
    i.reproduction = need(90.0);
    i.mate_priority = (40.0 + (90.0f64 - 60.0) * 0.3) as i32;
    assert_eq!(i.mate_priority, 49);
    assert_eq!(select_behavior(&i), d(BehaviorState::SeekingMate, DecisionTarget::Nothing, 39));
    i.nearest_mate_in_reach = Some(false);
    assert_eq!(select_behavior(&i), d(BehaviorState::SeekingMate, DecisionTarget::NearestMate, 44));
    i.nearest_mate_in_reach = Some(true);
    assert_eq!(select_behavior(&i), d(BehaviorState::Mating, DecisionTarget::NearestMate, 49));
    i.is_pregnant = true;
    assert_eq!(select_behavior(&i).behavior, BehaviorState::Wandering);
    i.is_pregnant = false;
    i.is_mature = false;
    assert_eq!(select_behavior(&i).behavior, BehaviorState::Wandering);
}

#[test]
fn winter_cold_sends_small_animals_to_hibernate() {
    let mut i = calm(rabbit());
    i.season = Season::Winter;
    i.hibernation_cold = true;
    i.mild_for_cold_stress = true;
    assert_eq!(select_behavior(&i), d(BehaviorState::Hibernating, DecisionTarget::Nothing, 75));
    i.severe_cold = true;
    i.mild_for_cold_stress = false;
    // Severe cold: hibernation (80) beats cold stress (55).
    assert_eq!(select_behavior(&i), d(BehaviorState::Hibernating, DecisionTarget::Nothing, 80));
    // The same cold outside winter only stresses.
    i.season = Season::Fall;
    assert_eq!(select_behavior(&i), d(BehaviorState::Resting, DecisionTarget::Nothing, 55));
}

#[test]
fn cold_stress_rises_with_hunger() {
    let mut i = calm(wolf());
    i.mild_for_cold_stress = false;
    assert_eq!(select_behavior(&i), d(BehaviorState::Resting, DecisionTarget::Nothing, 55));
    i.energy = need(20.0);
    assert_eq!(select_behavior(&i), d(BehaviorState::Resting, DecisionTarget::Nothing, 60));
    i.energy = need(80.0);
    i.hunger = need(25.0);
    i.prey_count = 5;
    assert_eq!(select_behavior(&i), d(BehaviorState::Resting, DecisionTarget::Nothing, 70));
    i.energy = need(20.0);
    assert_eq!(select_behavior(&i), d(BehaviorState::Resting, DecisionTarget::Nothing, 75));
}

#[test]
fn heat_sends_animals_to_water_or_rest() {
    let mut i = calm(wolf());
    i.below_heat_limit = false;
    assert_eq!(select_behavior(&i), d(BehaviorState::Resting, DecisionTarget::Nothing, 60));
    i.nearest_water_in_reach = Some(false);
    assert_eq!(select_behavior(&i), d(BehaviorState::Drinking, DecisionTarget::NearestWater, 65));
}

#[test]
fn ties_go_to_the_earlier_evaluator() {
    // Hibernation (80) ties desperate hunting (80): hibernation is
    // evaluated first and wins.
    let mut i = calm(wolf());
    i.season = Season::Winter;
    i.severe_cold = true;
    i.hibernation_cold = true;
    i.hunger = need(20.0);
    i.nearest_prey = Some(PreySense { very_close: false, beyond_strike: true });
    i.prey_count = 1;
    assert_eq!(select_behavior(&i), d(BehaviorState::Hibernating, DecisionTarget::Nothing, 80));
}

#[test]
fn prey_never_hunts() {
    let mut i = calm(rabbit());
    i.hunger = need(5.0);
    i.nearest_prey = Some(PreySense { very_close: true, beyond_strike: false });
    i.prey_count = 1;
    let b = select_behavior(&i).behavior;
    assert!(b != BehaviorState::Hunting && b != BehaviorState::Stalking);
}

#[test]
fn threat_and_prey_rules() {
    // Players threaten all but large predators.
    assert!(is_threat(&rabbit(), SizeClass::Medium, None, true));
    assert!(is_threat(&wolf(), SizeClass::Medium, None, true));
    let bear = SpeciesTraits { diet_type: DietType::Predator, size_class: SizeClass::Large, is_herbivore: false, nocturnal: false };
    assert!(!is_threat(&bear, SizeClass::Medium, None, true));
    // Animals without a known diet are no threat.
    assert!(!is_threat(&rabbit(), SizeClass::Huge, None, false));
    // Prey fear non-prey of their size or larger.
    assert!(is_threat(&rabbit(), SizeClass::Tiny, Some(DietType::Hybrid), false));
    assert!(!is_threat(&rabbit(), SizeClass::Huge, Some(DietType::Prey), false));
    // Hybrids fear strictly larger non-prey.
    assert!(!is_threat(&fox(), SizeClass::Small, Some(DietType::Predator), false));
    assert!(is_threat(&fox(), SizeClass::Medium, Some(DietType::Predator), false));
    // Predators fear predators two sizes larger.
    assert!(!is_threat(&wolf(), SizeClass::Large, Some(DietType::Predator), false));
    assert!(is_threat(&wolf(), SizeClass::Huge, Some(DietType::Predator), false));
    assert!(!is_threat(&wolf(), SizeClass::Huge, Some(DietType::Hybrid), false));
    // Prey never hunt; others hunt smaller animals.
    assert!(!is_prey(&rabbit(), SizeClass::Tiny));
    assert!(is_prey(&fox(), SizeClass::Tiny));
    assert!(!is_prey(&fox(), SizeClass::Small));
    assert!(is_prey(&wolf(), SizeClass::Small));
}

#[test]
fn nothing_is_both_threat_and_prey() {
    let sizes = [SizeClass::Tiny, SizeClass::Small, SizeClass::Medium, SizeClass::Large, SizeClass::Huge];
    let diets = [DietType::Prey, DietType::Hybrid, DietType::Predator];
    for me_diet in diets {
        for me_size in sizes {
            let me = SpeciesTraits { diet_type: me_diet, size_class: me_size, is_herbivore: false, nocturnal: false };
            for other_size in sizes {
                for other_diet in diets {
                    assert!(!(is_threat(&me, other_size, Some(other_diet), false) && is_prey(&me, other_size)));
                }
            }
        }
    }
}
