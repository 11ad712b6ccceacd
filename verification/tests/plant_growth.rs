use wildlife_sim::climate::Season;
use wildlife_sim::plants::{
    finish_stage, growth_complete, growth_regime, initial_stage, is_ground_cover, mature_stage_index, plant_group,
    spawn_shortfall, stage_is_forageable, GrowthRegime, PlantGroup, PlantType, StageAdvance,
};
use wildlife_sim::types::PlantGrowthStage as S;

#[test]
fn mature_index_and_initial_stage() {
    let stages = [S::Sprout, S::Growing, S::Mature, S::Flowering];
    assert_eq!(mature_stage_index(&stages), 2);
    assert_eq!(initial_stage(&stages, true), (S::Mature, 2));
    assert_eq!(initial_stage(&stages, false), (S::Sprout, 0));
    let no_mature = [S::Sprout, S::Growing];
    assert_eq!(mature_stage_index(&no_mature), 1);
    assert_eq!(initial_stage(&no_mature, true), (S::Growing, 1));
    assert_eq!(mature_stage_index(&[]), 0);
    assert_eq!(initial_stage(&[], true), (S::Mature, 0));
    assert_eq!(initial_stage(&[], false), (S::Seed, 0));
}

#[test]
fn completion_of_growth() {
    assert!(growth_complete(3, 4));
    assert!(!growth_complete(2, 4));
    assert!(growth_complete(0, 0));
    assert!(growth_complete(0, 1));
}

#[test]
fn regimes() {
    let spring_summer = [Season::Spring, Season::Summer];
    assert_eq!(growth_regime(true, &spring_summer, Season::Winter), GrowthRegime::Dormant);
    assert_eq!(growth_regime(false, &spring_summer, Season::Winter), GrowthRegime::OffSeason);
    assert_eq!(growth_regime(true, &spring_summer, Season::Summer), GrowthRegime::InSeason);
    assert_eq!(growth_regime(true, &spring_summer, Season::Fall), GrowthRegime::OffSeason);
    assert_eq!(growth_regime(false, &[Season::Winter], Season::Winter), GrowthRegime::InSeason);
}

#[test]
fn stage_transitions() {
    let stages = [S::Sprout, S::Growing, S::Mature];
    assert_eq!(
        finish_stage(&stages, 0, false, PlantType::Grass, S::Mature),
        StageAdvance { stage_index: 1, stage: S::Growing, announced: Some(S::Growing) }
    );
    // Past the last stage: annuals wither...
    assert_eq!(
        finish_stage(&stages, 2, false, PlantType::Vegetable, S::Mature),
        StageAdvance { stage_index: 3, stage: S::Withering, announced: Some(S::Withering) }
    );
    // ... regrowing fruit trees return to their regrow stage silently.
    assert_eq!(
        finish_stage(&stages, 2, true, PlantType::FruitTree, S::Growing),
        StageAdvance { stage_index: 1, stage: S::Growing, announced: None }
    );
    // A regrow stage the tree does not list lands on index 0.
    assert_eq!(
        finish_stage(&stages, 2, true, PlantType::FruitTree, S::Flowering),
        StageAdvance { stage_index: 0, stage: S::Flowering, announced: None }
    );
    // Regrowing herbs still wither: only fruit trees cycle.
    assert_eq!(finish_stage(&stages, 2, true, PlantType::Herb, S::Growing).stage, S::Withering);
}

#[test]
fn forageable_stages() {
    assert!(stage_is_forageable(S::Growing));
    assert!(stage_is_forageable(S::Mature));
    assert!(stage_is_forageable(S::Flowering));
    assert!(!stage_is_forageable(S::Seed));
    assert!(!stage_is_forageable(S::Sprout));
    assert!(!stage_is_forageable(S::Withering));
    assert!(!stage_is_forageable(S::Dead));
}

#[test]
fn groups_and_top_ups() {
    assert_eq!(plant_group("grass"), Some(PlantGroup::GroundCover));
    assert_eq!(plant_group("clover"), Some(PlantGroup::GroundCover));
    assert_eq!(plant_group("garlic"), Some(PlantGroup::Vegetable));
    assert_eq!(plant_group("mushroom"), Some(PlantGroup::Herb));
    assert_eq!(plant_group("pear_tree"), Some(PlantGroup::Tree));
    assert_eq!(plant_group("oak"), None);
    assert!(is_ground_cover("clover"));
    assert!(!is_ground_cover("carrot"));
    assert_eq!(spawn_shortfall(60, 50, 8), 8);
    assert_eq!(spawn_shortfall(60, 55, 8), 5);
    assert_eq!(spawn_shortfall(60, 60, 8), 0);
    assert_eq!(spawn_shortfall(60, 70, 8), 0);
}
