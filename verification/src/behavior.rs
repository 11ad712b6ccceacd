//! Behaviour selection for wildlife. Every measurement the selection reads
//! (needs, distances, temperature) arrives already compared against its
//! threshold; the library decides which behaviour wins and with what
//! priority.

use vstd::prelude::*;

use crate::climate::Season;
use crate::types::{BehaviorState, DietType, SizeClass};

verus! {

/// The traits of a species that threat, prey and behaviour decisions read.
#[derive(Debug, Clone, Copy, PartialEq, Eq, Structural)]
pub struct SpeciesTraits {
    pub diet_type: DietType,
    pub size_class: SizeClass,
    pub is_herbivore: bool,
    pub nocturnal: bool,
}

/// Whether `other` threatens an animal of species `me`.
pub open spec fn threatens(me: SpeciesTraits, other_size: SizeClass, other_diet: Option<DietType>, is_player: bool) -> bool {
    if is_player {
        me.diet_type != DietType::Predator || me.size_class.rank() < 4
    } else {
        match other_diet {
            None => false,
            Some(d) => match me.diet_type {
                DietType::Prey => other_size.rank() >= me.size_class.rank() && d != DietType::Prey,
                DietType::Hybrid => other_size.rank() > me.size_class.rank() && d != DietType::Prey,
                DietType::Predator => other_size.rank() > me.size_class.rank() + 1 && d == DietType::Predator,
            },
        }
    }
}

/// Whether an animal of size `other_size` is prey for species `me`.
pub open spec fn preys_on(me: SpeciesTraits, other_size: SizeClass) -> bool {
    me.diet_type != DietType::Prey && other_size.rank() < me.size_class.rank()
}

/// Check if another entity is a threat. Players threaten everything but large
/// predators; among animals, threats depend on diet and relative size.
pub fn is_threat(self_species: &SpeciesTraits, other_size: SizeClass, other_diet: Option<DietType>, is_player: bool) -> (r: bool)
    ensures
        r == threatens(*self_species, other_size, other_diet, is_player),
{
    let self_size = self_species.size_class.value();
    let other_size_val = other_size.value();
    if is_player {
        return self_species.diet_type != DietType::Predator || self_size < 4;
    }
    let other_diet = match other_diet {
        Some(d) => d,
        None => return false,
    };
    match self_species.diet_type {
        DietType::Prey => other_size_val >= self_size && other_diet != DietType::Prey,
        DietType::Hybrid => other_size_val > self_size && other_diet != DietType::Prey,
        DietType::Predator => other_size_val > self_size + 1 && other_diet == DietType::Predator,
    }
}

/// Check if another entity is valid prey: only non-prey species hunt, and
/// only smaller animals.
pub fn is_prey(self_species: &SpeciesTraits, other_size: SizeClass) -> (r: bool)
    ensures
        r == preys_on(*self_species, other_size),
{
    if self_species.diet_type == DietType::Prey {
        return false;
    }
    let self_size = self_species.size_class.value();
    let other_size_val = other_size.value();
    other_size_val < self_size
}

/// No animal is both a threat to a species and its prey.
pub proof fn lemma_threat_is_never_prey(me: SpeciesTraits, other_size: SizeClass, other_diet: DietType)
    ensures
        threatens(me, other_size, Some(other_diet), false) ==> !preys_on(me, other_size),
{
}

/// Prey animals fear every animal of a hunting diet (predator or hybrid)
/// that is at least their own size, and no other animal.
pub proof fn lemma_prey_fear_hunters_their_size_or_larger(me: SpeciesTraits, other_size: SizeClass, other_diet: DietType)
    requires
        me.diet_type == DietType::Prey,
    ensures
        other_diet != DietType::Prey && other_size.rank() >= me.size_class.rank() ==> threatens(
            me,
            other_size,
            Some(other_diet),
            false,
        ),
        other_diet == DietType::Prey || other_size.rank() < me.size_class.rank() ==> !threatens(
            me,
            other_size,
            Some(other_diet),
            false,
        ),
{
}

/// Hybrids fear only animals of a hunting diet strictly larger than
/// themselves; predators fear only predators at least two sizes larger.
pub proof fn lemma_hunters_fear_only_larger_hunters(me: SpeciesTraits, other_size: SizeClass, other_diet: DietType)
    ensures
        me.diet_type == DietType::Hybrid ==> (threatens(me, other_size, Some(other_diet), false) <==> (other_diet
            != DietType::Prey && other_size.rank() > me.size_class.rank())),
        me.diet_type == DietType::Predator ==> (threatens(me, other_size, Some(other_diet), false) <==> (other_diet
            == DietType::Predator && other_size.rank() >= me.size_class.rank() + 2)),
        me.diet_type != DietType::Prey && threatens(me, other_size, Some(other_diet), false) ==> other_size.rank()
            > me.size_class.rank(),
{
}

/// A player threatens every animal but a large or huge predator; an animal
/// whose diet is unknown threatens nothing.
pub proof fn lemma_player_and_unknown_threats(me: SpeciesTraits, other_size: SizeClass, other_diet: Option<DietType>)
    ensures
        threatens(me, other_size, other_diet, true) <==> !(me.diet_type == DietType::Predator && (me.size_class
            == SizeClass::Large || me.size_class == SizeClass::Huge)),
        !threatens(me, other_size, None, false),
{
}

/// A threat stays a threat when it is larger: threat grows with the other
/// animal's size, whatever its diet.
pub proof fn lemma_threat_grows_with_size(
    me: SpeciesTraits,
    smaller: SizeClass,
    larger: SizeClass,
    other_diet: Option<DietType>,
    is_player: bool,
)
    requires
        smaller.rank() <= larger.rank(),
    ensures
        threatens(me, smaller, other_diet, is_player) ==> threatens(me, larger, other_diet, is_player),
{
}

/// A need compared against the need thresholds: critical 15, low 30,
/// comfortable 60.
#[derive(Debug, Clone, Copy, PartialEq, Eq, Structural)]
pub struct NeedLevel {
    /// value > 60
    pub above_comfortable: bool,
    /// value < 60
    pub below_comfortable: bool,
    /// value > 30
    pub above_low: bool,
    /// value < 30
    pub below_low: bool,
    /// value < 15
    pub below_critical: bool,
}

/// The nearest threat, compared against the species' sight range.
#[derive(Debug, Clone, Copy, PartialEq, Eq, Structural)]
pub struct ThreatSense {
    /// distance < 30% of sight range
    pub very_close: bool,
    /// distance < 60% of sight range
    pub close: bool,
    /// distance < 50% of sight range
    pub within_half_sight: bool,
}

/// The nearest prey, compared against sight and attack range.
#[derive(Debug, Clone, Copy, PartialEq, Eq, Structural)]
pub struct PreySense {
    /// distance < 30% of sight range
    pub very_close: bool,
    /// distance > 3 attack ranges
    pub beyond_strike: bool,
}

/// Everything behaviour selection reads about an animal and its
/// surroundings.
#[derive(Debug, Clone, Copy, PartialEq, Eq, Structural)]
pub struct BehaviorInputs {
    pub is_alive: bool,
    /// the current behaviour is fleeing
    pub fleeing_now: bool,
    pub is_mature: bool,
    pub is_pregnant: bool,
    pub hunger: NeedLevel,
    pub thirst: NeedLevel,
    pub energy: NeedLevel,
    pub reproduction: NeedLevel,
    /// 40 + (reproduction - 60) * 0.3, truncated to an integer
    pub mate_priority: i32,
    pub species: SpeciesTraits,
    pub season: Season,
    pub is_night: bool,
    /// temperature < -0.5
    pub severe_cold: bool,
    /// temperature < -0.2
    pub hibernation_cold: bool,
    /// temperature >= -0.3
    pub mild_for_cold_stress: bool,
    /// temperature < 0.5
    pub below_heat_limit: bool,
    pub nearest_threat: Option<ThreatSense>,
    pub nearest_prey: Option<PreySense>,
    pub prey_count: usize,
    /// the nearest food, with whether it is out of reach (distance > 2)
    pub nearest_food_out_of_reach: Option<bool>,
    /// the nearest water, with whether it is within reach (distance < 2)
    pub nearest_water_in_reach: Option<bool>,
    /// the nearest mate, with whether it is within reach (distance < 2)
    pub nearest_mate_in_reach: Option<bool>,
    pub hazard_nearby: bool,
}

/// What a decision moves towards or acts on.
#[derive(Debug, Clone, Copy, PartialEq, Eq, Structural)]
pub enum DecisionTarget {
    Nothing,
    NearestThreat,
    NearestPrey,
    NearestFood,
    NearestWater,
    NearestMate,
    NearestHazard,
}

/// A candidate or chosen behaviour.
#[derive(Debug, Clone, Copy, PartialEq, Eq, Structural)]
pub struct BehaviorDecision {
    pub behavior: BehaviorState,
    pub target: DecisionTarget,
    pub priority: i32,
}

pub open spec fn decision(behavior: BehaviorState, target: DecisionTarget, priority: int) -> BehaviorDecision {
    BehaviorDecision { behavior, target, priority: priority as i32 }
}

/// Any animal that perceives a threat flees it: at 90, plus 15 when the
/// threat is very close (or 5 when close), plus 10 when already fleeing.
pub open spec fn flee_candidate(i: BehaviorInputs) -> Option<BehaviorDecision> {
    match i.nearest_threat {
        None => None,
        Some(t) => {
            let dist_bonus: int = if t.very_close {
                15
            } else if t.close {
                5
            } else {
                0
            };
            let keep_bonus: int = if i.fleeing_now {
                10
            } else {
                0
            };
            Some(decision(BehaviorState::Fleeing, DecisionTarget::NearestThreat, 90 + dist_bonus + keep_bonus))
        },
    }
}

pub open spec fn hunt_candidate(i: BehaviorInputs) -> Option<BehaviorDecision> {
    if i.species.diet_type == DietType::Prey || i.hunger.above_comfortable {
        None
    } else if i.nearest_threat is Some && i.nearest_threat->0.within_half_sight {
        None
    } else {
        match i.nearest_prey {
            None => None,
            Some(p) => {
                let hunger_bonus: int = if i.hunger.below_critical {
                    25
                } else if i.hunger.below_low {
                    15
                } else {
                    0
                };
                let near_bonus: int = if p.very_close {
                    10
                } else {
                    0
                };
                let b = if p.beyond_strike {
                    BehaviorState::Stalking
                } else {
                    BehaviorState::Hunting
                };
                Some(decision(b, DecisionTarget::NearestPrey, 55 + hunger_bonus + near_bonus))
            },
        }
    }
}

pub open spec fn drink_candidate(i: BehaviorInputs) -> Option<BehaviorDecision> {
    if i.thirst.above_low {
        None
    } else {
        let p: int = if i.thirst.below_critical {
            85
        } else {
            50
        };
        match i.nearest_water_in_reach {
            Some(true) => Some(decision(BehaviorState::Drinking, DecisionTarget::NearestWater, p)),
            Some(false) => Some(decision(BehaviorState::Wandering, DecisionTarget::NearestWater, p - 5)),
            None => Some(decision(BehaviorState::Wandering, DecisionTarget::Nothing, p - 20)),
        }
    }
}

pub open spec fn eat_candidate(i: BehaviorInputs) -> Option<BehaviorDecision> {
    if i.hunger.above_low {
        None
    } else {
        match i.nearest_food_out_of_reach {
            None => None,
            Some(true) => None,
            Some(false) => Some(
                decision(
                    BehaviorState::Eating,
                    DecisionTarget::NearestFood,
                    if i.hunger.below_critical {
                        80
                    } else {
                        65
                    },
                ),
            ),
        }
    }
}

pub open spec fn forage_candidate(i: BehaviorInputs) -> Option<BehaviorDecision> {
    if !i.species.is_herbivore || i.hunger.above_comfortable {
        None
    } else {
        let p: int = if i.hunger.below_critical {
            75
        } else if i.hunger.below_low {
            60
        } else {
            45
        };
        let t = if i.nearest_food_out_of_reach is Some {
            DecisionTarget::NearestFood
        } else {
            DecisionTarget::Nothing
        };
        Some(decision(BehaviorState::Foraging, t, p))
    }
}

pub open spec fn rest_candidate(i: BehaviorInputs) -> Option<BehaviorDecision> {
    if i.energy.above_low || i.nearest_threat is Some {
        None
    } else {
        let base: int = if i.energy.below_critical {
            50
        } else {
            30
        };
        let off_hours = (i.species.nocturnal && !i.is_night) || (!i.species.nocturnal && i.is_night);
        let bonus: int = if off_hours {
            20
        } else {
            0
        };
        Some(decision(BehaviorState::Resting, DecisionTarget::Nothing, base + bonus))
    }
}

pub open spec fn mate_candidate(i: BehaviorInputs) -> Option<BehaviorDecision> {
    if !i.is_mature || i.is_pregnant || i.reproduction.below_comfortable {
        None
    } else if i.hunger.below_low || i.thirst.below_low || i.nearest_threat is Some {
        None
    } else {
        let p = i.mate_priority as int;
        match i.nearest_mate_in_reach {
            Some(true) => Some(decision(BehaviorState::Mating, DecisionTarget::NearestMate, p)),
            Some(false) => Some(decision(BehaviorState::SeekingMate, DecisionTarget::NearestMate, p - 5)),
            None => Some(decision(BehaviorState::SeekingMate, DecisionTarget::Nothing, p - 10)),
        }
    }
}

pub open spec fn hibernation_candidate(i: BehaviorInputs) -> Option<BehaviorDecision> {
    if i.season != Season::Winter {
        None
    } else if i.severe_cold {
        Some(decision(BehaviorState::Hibernating, DecisionTarget::Nothing, 80))
    } else if i.hibernation_cold && (i.species.size_class == SizeClass::Tiny || i.species.size_class
        == SizeClass::Small) {
        Some(decision(BehaviorState::Hibernating, DecisionTarget::Nothing, 75))
    } else {
        None
    }
}

pub open spec fn cold_stress_candidate(i: BehaviorInputs) -> Option<BehaviorDecision> {
    if i.mild_for_cold_stress {
        None
    } else {
        let hunger_urgency: int = if i.hunger.below_low {
            15
        } else {
            0
        };
        let energy_urgency: int = if i.energy.below_low {
            5
        } else {
            0
        };
        Some(decision(BehaviorState::Resting, DecisionTarget::Nothing, 55 + hunger_urgency + energy_urgency))
    }
}

pub open spec fn heat_stress_candidate(i: BehaviorInputs) -> Option<BehaviorDecision> {
    if i.below_heat_limit {
        None
    } else if i.nearest_water_in_reach is Some {
        Some(decision(BehaviorState::Drinking, DecisionTarget::NearestWater, 65))
    } else {
        Some(decision(BehaviorState::Resting, DecisionTarget::Nothing, 60))
    }
}

pub open spec fn storm_candidate(i: BehaviorInputs) -> Option<BehaviorDecision> {
    if i.hazard_nearby {
        Some(decision(BehaviorState::Fleeing, DecisionTarget::NearestHazard, 90))
    } else {
        None
    }
}

pub open spec fn desperate_hunt_candidate(i: BehaviorInputs) -> Option<BehaviorDecision> {
    if i.species.diet_type == DietType::Prey || i.prey_count >= 2 || i.hunger.above_low {
        None
    } else if i.nearest_prey is None {
        None
    } else {
        Some(
            decision(
                BehaviorState::Hunting,
                DecisionTarget::NearestPrey,
                if i.hunger.below_critical {
                    90
                } else {
                    80
                },
            ),
        )
    }
}

pub open spec fn opt_seq(o: Option<BehaviorDecision>) -> Seq<BehaviorDecision> {
    match o {
        Some(d) => seq![d],
        None => Seq::empty(),
    }
}

/// The candidate behaviours of a living animal, in evaluation order: climate
/// and weather first, then survival, then the wander and idle defaults.
pub open spec fn candidates(i: BehaviorInputs) -> Seq<BehaviorDecision> {
    opt_seq(hibernation_candidate(i)) + opt_seq(storm_candidate(i)) + opt_seq(flee_candidate(i)) + opt_seq(
        cold_stress_candidate(i),
    ) + opt_seq(heat_stress_candidate(i)) + opt_seq(desperate_hunt_candidate(i)) + opt_seq(
        hunt_candidate(i),
    ) + opt_seq(drink_candidate(i)) + opt_seq(eat_candidate(i)) + opt_seq(forage_candidate(i))
        + opt_seq(rest_candidate(i)) + opt_seq(mate_candidate(i)) + seq![
        decision(BehaviorState::Wandering, DecisionTarget::Nothing, 20),
        decision(BehaviorState::Idle, DecisionTarget::Nothing, 10),
    ]
}

/// The first candidate of highest priority.
pub open spec fn first_best(s: Seq<BehaviorDecision>) -> BehaviorDecision
    decreases s.len(),
{
    if s.len() <= 1 {
        s[0]
    } else {
        let b = first_best(s.drop_last());
        if s.last().priority > b.priority {
            s.last()
        } else {
            b
        }
    }
}

/// The behaviour an animal selects.
pub open spec fn selected(i: BehaviorInputs) -> BehaviorDecision {
    if !i.is_alive {
        decision(BehaviorState::Dead, DecisionTarget::Nothing, 100)
    } else {
        first_best(candidates(i))
    }
}

/// Inputs whose mate priority, where it is used (an eager animal), leaves
/// room for its penalties.
pub open spec fn inputs_in_range(i: BehaviorInputs) -> bool {
    !i.reproduction.below_comfortable ==> i.mate_priority >= i32::MIN + 10
}

fn evaluate_flee(i: &BehaviorInputs) -> (r: Option<BehaviorDecision>)
    ensures
        r == flee_candidate(*i),
{
    let t = match i.nearest_threat {
        Some(t) => t,
        None => return None,
    };
    let mut urgency: i32 = 90;
    if t.very_close {
        urgency += 15;
    } else if t.close {
        urgency += 5;
    }
    if i.fleeing_now {
        urgency += 10;
    }
    Some(BehaviorDecision { behavior: BehaviorState::Fleeing, target: DecisionTarget::NearestThreat, priority: urgency })
}

fn evaluate_hunt(i: &BehaviorInputs) -> (r: Option<BehaviorDecision>)
    ensures
        r == hunt_candidate(*i),
{
    if i.species.diet_type == DietType::Prey {
        return None;
    }
    if i.hunger.above_comfortable {
        return None;
    }
    if let Some(t) = i.nearest_threat {
        if t.within_half_sight {
            return None;
        }
    }
    let p = match i.nearest_prey {
        Some(p) => p,
        None => return None,
    };
    let mut priority: i32 = 55;
    if i.hunger.below_critical {
        priority += 25;
    } else if i.hunger.below_low {
        priority += 15;
    }
    if p.very_close {
        priority += 10;
    }
    let behavior = if p.beyond_strike {
        BehaviorState::Stalking
    } else {
        BehaviorState::Hunting
    };
    Some(BehaviorDecision { behavior, target: DecisionTarget::NearestPrey, priority })
}

fn evaluate_drink(i: &BehaviorInputs) -> (r: Option<BehaviorDecision>)
    ensures
        r == drink_candidate(*i),
{
    if i.thirst.above_low {
        return None;
    }
    let mut priority: i32 = 50;
    if i.thirst.below_critical {
        priority = 85;
    }
    match i.nearest_water_in_reach {
        Some(true) => Some(
            BehaviorDecision { behavior: BehaviorState::Drinking, target: DecisionTarget::NearestWater, priority },
        ),
        Some(false) => Some(
            BehaviorDecision {
                behavior: BehaviorState::Wandering,
                target: DecisionTarget::NearestWater,
                priority: priority - 5,
            },
        ),
        None => Some(
            BehaviorDecision {
                behavior: BehaviorState::Wandering,
                target: DecisionTarget::Nothing,
                priority: priority - 20,
            },
        ),
    }
}

fn evaluate_eat(i: &BehaviorInputs) -> (r: Option<BehaviorDecision>)
    ensures
        r == eat_candidate(*i),
{
    if i.hunger.above_low {
        return None;
    }
    let out_of_reach = match i.nearest_food_out_of_reach {
        Some(o) => o,
        None => return None,
    };
    if out_of_reach {
        return None;
    }
    let mut priority: i32 = 65;
    if i.hunger.below_critical {
        priority = 80;
    }
    Some(BehaviorDecision { behavior: BehaviorState::Eating, target: DecisionTarget::NearestFood, priority })
}

fn evaluate_forage(i: &BehaviorInputs) -> (r: Option<BehaviorDecision>)
    ensures
        r == forage_candidate(*i),
{
    if !i.species.is_herbivore {
        return None;
    }
    if i.hunger.above_comfortable {
        return None;
    }
    let mut priority: i32 = 45;
    if i.hunger.below_low {
        priority = 60;
    }
    if i.hunger.below_critical {
        priority = 75;
    }
    let target = match i.nearest_food_out_of_reach {
        Some(_) => DecisionTarget::NearestFood,
        None => DecisionTarget::Nothing,
    };
    Some(BehaviorDecision { behavior: BehaviorState::Foraging, target, priority })
}

fn evaluate_rest(i: &BehaviorInputs) -> (r: Option<BehaviorDecision>)
    ensures
        r == rest_candidate(*i),
{
    if i.energy.above_low {
        return None;
    }
    if i.nearest_threat.is_some() {
        return None;
    }
    let mut priority: i32 = 30;
    if i.energy.below_critical {
        priority = 50;
    }
    if i.species.nocturnal && !i.is_night {
        priority += 20;
    }
    if !i.species.nocturnal && i.is_night {
        priority += 20;
    }
    Some(BehaviorDecision { behavior: BehaviorState::Resting, target: DecisionTarget::Nothing, priority })
}

fn evaluate_mate(i: &BehaviorInputs) -> (r: Option<BehaviorDecision>)
    requires
        inputs_in_range(*i),
    ensures
        r == mate_candidate(*i),
{
    if !i.is_mature || i.is_pregnant {
        return None;
    }
    if i.reproduction.below_comfortable {
        return None;
    }
    if i.hunger.below_low || i.thirst.below_low {
        return None;
    }
    if i.nearest_threat.is_some() {
        return None;
    }
    let priority = i.mate_priority;
    match i.nearest_mate_in_reach {
        Some(true) => Some(
            BehaviorDecision { behavior: BehaviorState::Mating, target: DecisionTarget::NearestMate, priority },
        ),
        Some(false) => Some(
            BehaviorDecision {
                behavior: BehaviorState::SeekingMate,
                target: DecisionTarget::NearestMate,
                priority: priority - 5,
            },
        ),
        None => Some(
            BehaviorDecision {
                behavior: BehaviorState::SeekingMate,
                target: DecisionTarget::Nothing,
                priority: priority - 10,
            },
        ),
    }
}

fn evaluate_hibernation(i: &BehaviorInputs) -> (r: Option<BehaviorDecision>)
    ensures
        r == hibernation_candidate(*i),
{
    if i.season != Season::Winter {
        return None;
    }
    if i.severe_cold {
        return Some(
            BehaviorDecision { behavior: BehaviorState::Hibernating, target: DecisionTarget::Nothing, priority: 80 },
        );
    }
    if i.hibernation_cold && (i.species.size_class == SizeClass::Tiny || i.species.size_class == SizeClass::Small) {
        return Some(
            BehaviorDecision { behavior: BehaviorState::Hibernating, target: DecisionTarget::Nothing, priority: 75 },
        );
    }
    None
}

fn evaluate_cold_stress(i: &BehaviorInputs) -> (r: Option<BehaviorDecision>)
    ensures
        r == cold_stress_candidate(*i),
{
    if i.mild_for_cold_stress {
        return None;
    }
    let hunger_urgency: i32 = if i.hunger.below_low {
        15
    } else {
        0
    };
    let energy_urgency: i32 = if i.energy.below_low {
        5
    } else {
        0
    };
    Some(
        BehaviorDecision {
            behavior: BehaviorState::Resting,
            target: DecisionTarget::Nothing,
            priority: 55 + hunger_urgency + energy_urgency,
        },
    )
}

fn evaluate_heat_stress(i: &BehaviorInputs) -> (r: Option<BehaviorDecision>)
    ensures
        r == heat_stress_candidate(*i),
{
    if i.below_heat_limit {
        return None;
    }
    match i.nearest_water_in_reach {
        Some(_) => Some(
            BehaviorDecision { behavior: BehaviorState::Drinking, target: DecisionTarget::NearestWater, priority: 65 },
        ),
        None => Some(
            BehaviorDecision { behavior: BehaviorState::Resting, target: DecisionTarget::Nothing, priority: 60 },
        ),
    }
}

fn evaluate_storm_fleeing(i: &BehaviorInputs) -> (r: Option<BehaviorDecision>)
    ensures
        r == storm_candidate(*i),
{
    if i.hazard_nearby {
        Some(BehaviorDecision { behavior: BehaviorState::Fleeing, target: DecisionTarget::NearestHazard, priority: 90 })
    } else {
        None
    }
}

fn evaluate_desperate_hunting(i: &BehaviorInputs) -> (r: Option<BehaviorDecision>)
    ensures
        r == desperate_hunt_candidate(*i),
{
    if i.species.diet_type == DietType::Prey {
        return None;
    }
    if i.prey_count >= 2 {
        return None;
    }
    if i.hunger.above_low {
        return None;
    }
    if i.nearest_prey.is_none() {
        return None;
    }
    let mut priority: i32 = 80;
    if i.hunger.below_critical {
        priority = 90;
    }
    Some(BehaviorDecision { behavior: BehaviorState::Hunting, target: DecisionTarget::NearestPrey, priority })
}

fn push_some(v: &mut Vec<BehaviorDecision>, o: Option<BehaviorDecision>)
    ensures
        final(v)@ == old(v)@ + opt_seq(o),
{
    match o {
        Some(d) => {
            v.push(d);
            assert(final(v)@ =~= old(v)@ + opt_seq(o));
        },
        None => {
            assert(old(v)@ + opt_seq(o) =~= old(v)@);
        },
    }
}

/// Select the best behaviour for an animal: a dead animal stays dead;
/// otherwise every evaluator proposes at most one candidate, wandering and
/// idling are always proposed, and the first candidate of highest priority
/// wins.
pub fn select_behavior(inputs: &BehaviorInputs) -> (d: BehaviorDecision)
    requires
        inputs_in_range(*inputs),
    ensures
        d == selected(*inputs),
{
    if !inputs.is_alive {
        return BehaviorDecision { behavior: BehaviorState::Dead, target: DecisionTarget::Nothing, priority: 100 };
    }
    let mut cands: Vec<BehaviorDecision> = Vec::new();
    push_some(&mut cands, evaluate_hibernation(inputs));
    push_some(&mut cands, evaluate_storm_fleeing(inputs));
    push_some(&mut cands, evaluate_flee(inputs));
    push_some(&mut cands, evaluate_cold_stress(inputs));
    push_some(&mut cands, evaluate_heat_stress(inputs));
    push_some(&mut cands, evaluate_desperate_hunting(inputs));
    push_some(&mut cands, evaluate_hunt(inputs));
    push_some(&mut cands, evaluate_drink(inputs));
    push_some(&mut cands, evaluate_eat(inputs));
    push_some(&mut cands, evaluate_forage(inputs));
    push_some(&mut cands, evaluate_rest(inputs));
    push_some(&mut cands, evaluate_mate(inputs));
    cands.push(BehaviorDecision { behavior: BehaviorState::Wandering, target: DecisionTarget::Nothing, priority: 20 });
    cands.push(BehaviorDecision { behavior: BehaviorState::Idle, target: DecisionTarget::Nothing, priority: 10 });
    assert(cands@ =~= candidates(*inputs));
    let n = cands.len();
    let mut best = cands[0];
    let mut k: usize = 1;
    proof {
        assert(cands@.take(1).drop_last() =~= Seq::<BehaviorDecision>::empty());
        assert(first_best(cands@.take(1)) == cands@[0]);
    }
    while k < n
        invariant
            n == cands@.len(),
            1 <= k <= n,
            best == first_best(cands@.take(k as int)),
        decreases n - k,
    {
        let c = cands[k];
        proof {
            assert(cands@.take(k + 1).drop_last() =~= cands@.take(k as int));
            assert(cands@.take(k + 1).last() == c);
        }
        if c.priority > best.priority {
            best = c;
        }
        k = k + 1;
    }
    assert(cands@.take(n as int) =~= cands@);
    best
}

/// The first best element is one of the candidates and no candidate has a
/// higher priority.
pub proof fn lemma_first_best_is_maximal(s: Seq<BehaviorDecision>)
    requires
        s.len() >= 1,
    ensures
        s.contains(first_best(s)),
        forall|k: int| 0 <= k < s.len() ==> (#[trigger] s[k]).priority <= first_best(s).priority,
    decreases s.len(),
{
    if s.len() > 1 {
        let t = s.drop_last();
        lemma_first_best_is_maximal(t);
        let b = first_best(t);
        let j = choose|j: int| 0 <= j < t.len() && t[j] == b;
        assert(s[j] == b);
        assert forall|k: int| 0 <= k < s.len() implies (#[trigger] s[k]).priority <= first_best(s).priority by {
            if k < s.len() - 1 {
                assert(s[k] == t[k]);
            }
        }
        if s.last().priority > b.priority {
            assert(s[s.len() - 1] == first_best(s));
        }
    } else {
        assert(s[0] == first_best(s));
    }
}

/// A living animal selects one of its candidates, none of which outranks it;
/// since wandering is always a candidate, its priority is at least 20.
pub proof fn lemma_selection_is_best_candidate(i: BehaviorInputs)
    requires
        i.is_alive,
        inputs_in_range(i),
    ensures
        candidates(i).contains(selected(i)),
        forall|k: int| 0 <= k < candidates(i).len() ==> (#[trigger] candidates(i)[k]).priority <= selected(i).priority,
        selected(i).priority >= 20,
{
    let s = candidates(i);
    lemma_first_best_is_maximal(s);
    assert(s[s.len() - 2] == decision(BehaviorState::Wandering, DecisionTarget::Nothing, 20));
}

/// Every candidate of an animal respects what its species and state allow:
/// prey never hunt or stalk, only herbivores forage, hibernation happens only
/// in winter, an animal mates or seeks a mate only when mature, not
/// pregnant, eager, fed, watered and unthreatened, and a living animal never
/// chooses to be dead or dying.
pub open spec fn permitted(i: BehaviorInputs, d: BehaviorDecision) -> bool {
    &&& (i.is_alive ==> d.behavior != BehaviorState::Dead && d.behavior != BehaviorState::Dying)
    &&& (i.species.diet_type == DietType::Prey ==> d.behavior != BehaviorState::Hunting && d.behavior
        != BehaviorState::Stalking)
    &&& (d.behavior == BehaviorState::Foraging ==> i.species.is_herbivore)
    &&& (d.behavior == BehaviorState::Hibernating ==> i.season == Season::Winter)
    &&& ((d.behavior == BehaviorState::Mating || d.behavior == BehaviorState::SeekingMate) ==> {
        &&& i.is_mature && !i.is_pregnant
        &&& !i.reproduction.below_comfortable
        &&& !i.hunger.below_low && !i.thirst.below_low
        &&& i.nearest_threat is None
    })
}

/// Every decision of a sequence is permitted.
pub open spec fn all_permitted(i: BehaviorInputs, s: Seq<BehaviorDecision>) -> bool {
    forall|k: int| 0 <= k < s.len() ==> permitted(i, #[trigger] s[k])
}

proof fn lemma_concat_permitted(i: BehaviorInputs, a: Seq<BehaviorDecision>, b: Seq<BehaviorDecision>)
    requires
        all_permitted(i, a),
        all_permitted(i, b),
    ensures
        all_permitted(i, a + b),
{
    assert forall|k: int| 0 <= k < (a + b).len() implies permitted(i, #[trigger] (a + b)[k]) by {
        if k < a.len() {
            assert((a + b)[k] == a[k]);
        } else {
            assert((a + b)[k] == b[k - a.len()]);
        }
    }
}

proof fn lemma_opt_permitted(i: BehaviorInputs, o: Option<BehaviorDecision>)
    requires
        o matches Some(d) ==> permitted(i, d),
    ensures
        all_permitted(i, opt_seq(o)),
{
}

#[verifier::spinoff_prover]
proof fn lemma_each_candidate_permitted(i: BehaviorInputs)
    ensures
        all_permitted(i, opt_seq(hibernation_candidate(i))),
        all_permitted(i, opt_seq(storm_candidate(i))),
        all_permitted(i, opt_seq(flee_candidate(i))),
        all_permitted(i, opt_seq(cold_stress_candidate(i))),
        all_permitted(i, opt_seq(heat_stress_candidate(i))),
        all_permitted(i, opt_seq(desperate_hunt_candidate(i))),
        all_permitted(i, opt_seq(hunt_candidate(i))),
        all_permitted(i, opt_seq(drink_candidate(i))),
        all_permitted(i, opt_seq(eat_candidate(i))),
        all_permitted(i, opt_seq(forage_candidate(i))),
        all_permitted(i, opt_seq(rest_candidate(i))),
        all_permitted(i, opt_seq(mate_candidate(i))),
{
    lemma_opt_permitted(i, hibernation_candidate(i));
    lemma_opt_permitted(i, storm_candidate(i));
    lemma_opt_permitted(i, flee_candidate(i));
    lemma_opt_permitted(i, cold_stress_candidate(i));
    lemma_opt_permitted(i, heat_stress_candidate(i));
    lemma_opt_permitted(i, desperate_hunt_candidate(i));
    lemma_opt_permitted(i, hunt_candidate(i));
    lemma_opt_permitted(i, drink_candidate(i));
    lemma_opt_permitted(i, eat_candidate(i));
    lemma_opt_permitted(i, forage_candidate(i));
    lemma_opt_permitted(i, rest_candidate(i));
    lemma_opt_permitted(i, mate_candidate(i));
}

#[verifier::spinoff_prover]
proof fn lemma_all_candidates_permitted(i: BehaviorInputs)
    ensures
        all_permitted(i, candidates(i)),
{
    lemma_each_candidate_permitted(i);
    let tail = seq![
        decision(BehaviorState::Wandering, DecisionTarget::Nothing, 20),
        decision(BehaviorState::Idle, DecisionTarget::Nothing, 10),
    ];
    assert(all_permitted(i, tail));
    let p1 = opt_seq(hibernation_candidate(i));
    let p2 = opt_seq(storm_candidate(i));
    let p3 = opt_seq(flee_candidate(i));
    let p4 = opt_seq(cold_stress_candidate(i));
    let p5 = opt_seq(heat_stress_candidate(i));
    let p6 = opt_seq(desperate_hunt_candidate(i));
    let p7 = opt_seq(hunt_candidate(i));
    let p8 = opt_seq(drink_candidate(i));
    let p9 = opt_seq(eat_candidate(i));
    let p10 = opt_seq(forage_candidate(i));
    let p11 = opt_seq(rest_candidate(i));
    let p12 = opt_seq(mate_candidate(i));
    lemma_concat_permitted(i, p1, p2);
    lemma_concat_permitted(i, p1 + p2, p3);
    lemma_concat_permitted(i, p1 + p2 + p3, p4);
    lemma_concat_permitted(i, p1 + p2 + p3 + p4, p5);
    lemma_concat_permitted(i, p1 + p2 + p3 + p4 + p5, p6);
    lemma_concat_permitted(i, p1 + p2 + p3 + p4 + p5 + p6, p7);
    lemma_concat_permitted(i, p1 + p2 + p3 + p4 + p5 + p6 + p7, p8);
    lemma_concat_permitted(i, p1 + p2 + p3 + p4 + p5 + p6 + p7 + p8, p9);
    lemma_concat_permitted(i, p1 + p2 + p3 + p4 + p5 + p6 + p7 + p8 + p9, p10);
    lemma_concat_permitted(i, p1 + p2 + p3 + p4 + p5 + p6 + p7 + p8 + p9 + p10, p11);
    lemma_concat_permitted(i, p1 + p2 + p3 + p4 + p5 + p6 + p7 + p8 + p9 + p10 + p11, p12);
    lemma_concat_permitted(i, p1 + p2 + p3 + p4 + p5 + p6 + p7 + p8 + p9 + p10 + p11 + p12, tail);
}

/// Whatever an animal selects respects its species and state: prey never
/// hunt or stalk, only herbivores forage, animals hibernate only in winter,
/// only mature, non-pregnant, eager, fed, watered and unthreatened animals
/// mate or seek a mate, and only a dead animal is dead.
pub proof fn lemma_selection_is_permitted(i: BehaviorInputs)
    requires
        inputs_in_range(i),
    ensures
        permitted(i, selected(i)),
{
    if i.is_alive {
        lemma_selection_is_best_candidate(i);
        lemma_all_candidates_permitted(i);
        let s = candidates(i);
        let j = choose|j: int| 0 <= j < s.len() && s[j] == selected(i);
        assert(permitted(i, s[j]));
    }
}

/// The first best of a concatenation is the right part's best only when it
/// strictly outranks the left part's.
proof fn lemma_first_best_concat(a: Seq<BehaviorDecision>, b: Seq<BehaviorDecision>)
    requires
        a.len() >= 1,
        b.len() >= 1,
    ensures
        first_best(a + b) == (if first_best(b).priority > first_best(a).priority {
            first_best(b)
        } else {
            first_best(a)
        }),
    decreases b.len(),
{
    let s = a + b;
    if b.len() == 1 {
        assert(s.drop_last() =~= a);
        assert(s.last() == b[0]);
    } else {
        let b2 = b.drop_last();
        lemma_first_best_concat(a, b2);
        assert(s.drop_last() =~= a + b2);
        assert(s.last() == b.last());
    }
}

/// Appending decisions that do not outrank the current best keeps it.
proof fn lemma_best_kept(a: Seq<BehaviorDecision>, b: Seq<BehaviorDecision>)
    requires
        a.len() >= 1,
        forall|k: int| 0 <= k < b.len() ==> (#[trigger] b[k]).priority <= first_best(a).priority,
    ensures
        first_best(a + b) == first_best(a),
{
    if b.len() == 0 {
        assert(a + b =~= a);
    } else {
        lemma_first_best_concat(a, b);
        lemma_first_best_is_maximal(b);
    }
}

/// Appending an optional decision that does not outrank the current best
/// keeps it.
proof fn lemma_best_kept_opt(a: Seq<BehaviorDecision>, o: Option<BehaviorDecision>)
    requires
        a.len() >= 1,
        o matches Some(d) ==> d.priority <= first_best(a).priority,
    ensures
        (a + opt_seq(o)).len() >= 1,
        first_best(a + opt_seq(o)) == first_best(a),
{
    lemma_best_kept(a, opt_seq(o));
}

/// For a threatened animal, the climate, weather and flight candidates are
/// led by a flight of priority 90 or more.
#[verifier::spinoff_prover]
proof fn lemma_flight_leads(i: BehaviorInputs)
    requires
        i.nearest_threat is Some,
    ensures
        ({
            let s3 = opt_seq(hibernation_candidate(i)) + opt_seq(storm_candidate(i)) + opt_seq(flee_candidate(i));
            &&& s3.len() >= 1
            &&& first_best(s3).behavior == BehaviorState::Fleeing
            &&& first_best(s3).priority >= 90
        }),
{
    lemma_climate_priority_bands(i);
    let p1 = opt_seq(hibernation_candidate(i));
    let p2 = opt_seq(storm_candidate(i));
    let p3 = opt_seq(flee_candidate(i));
    let s2 = p1 + p2;
    let s3 = s2 + p3;
    let flee = flee_candidate(i)->0;
    assert(p3 =~= seq![flee]);
    if s2.len() == 0 {
        assert(s3 =~= p3);
    } else {
        lemma_first_best_concat(s2, p3);
        lemma_first_best_is_maximal(s2);
        let j = choose|j: int| 0 <= j < s2.len() && s2[j] == first_best(s2);
        if j < p1.len() {
            assert(s2[j] == p1[j]);
        } else {
            assert(s2[j] == p2[j - p1.len()]);
        }
    }
}

/// None of the remaining candidates of a threatened animal exceeds priority
/// 90.
#[verifier::spinoff_prover]
proof fn lemma_rest_bounded(i: BehaviorInputs)
    requires
        i.nearest_threat is Some,
    ensures
        cold_stress_candidate(i) matches Some(d) ==> d.priority <= 90,
        heat_stress_candidate(i) matches Some(d) ==> d.priority <= 90,
        desperate_hunt_candidate(i) matches Some(d) ==> d.priority <= 90,
        hunt_candidate(i) matches Some(d) ==> d.priority <= 90,
        drink_candidate(i) matches Some(d) ==> d.priority <= 90,
        eat_candidate(i) matches Some(d) ==> d.priority <= 90,
        forage_candidate(i) matches Some(d) ==> d.priority <= 90,
        rest_candidate(i) is None,
        mate_candidate(i) is None,
{
    lemma_climate_priority_bands(i);
}

/// Fleeing from a threat always interrupts: a living animal that perceives
/// a threat flees, whatever else it needs. Fleeing (priority 90 or more)
/// outranks every other candidate of a threatened animal, and wins its ties
/// by coming first.
#[verifier::spinoff_prover]
pub proof fn lemma_threatened_animal_flees(i: BehaviorInputs)
    requires
        i.is_alive,
        i.nearest_threat is Some,
    ensures
        selected(i).behavior == BehaviorState::Fleeing,
        selected(i).priority >= 90,
{
    lemma_flight_leads(i);
    lemma_rest_bounded(i);
    let s3 = opt_seq(hibernation_candidate(i)) + opt_seq(storm_candidate(i)) + opt_seq(flee_candidate(i));
    let s4 = s3 + opt_seq(cold_stress_candidate(i));
    lemma_best_kept_opt(s3, cold_stress_candidate(i));
    let s5 = s4 + opt_seq(heat_stress_candidate(i));
    lemma_best_kept_opt(s4, heat_stress_candidate(i));
    let s6 = s5 + opt_seq(desperate_hunt_candidate(i));
    lemma_best_kept_opt(s5, desperate_hunt_candidate(i));
    let s7 = s6 + opt_seq(hunt_candidate(i));
    lemma_best_kept_opt(s6, hunt_candidate(i));
    let s8 = s7 + opt_seq(drink_candidate(i));
    lemma_best_kept_opt(s7, drink_candidate(i));
    let s9 = s8 + opt_seq(eat_candidate(i));
    lemma_best_kept_opt(s8, eat_candidate(i));
    let s10 = s9 + opt_seq(forage_candidate(i));
    lemma_best_kept_opt(s9, forage_candidate(i));
    let s11 = s10 + opt_seq(rest_candidate(i));
    lemma_best_kept_opt(s10, rest_candidate(i));
    let s12 = s11 + opt_seq(mate_candidate(i));
    lemma_best_kept_opt(s11, mate_candidate(i));
    let tail = seq![
        decision(BehaviorState::Wandering, DecisionTarget::Nothing, 20),
        decision(BehaviorState::Idle, DecisionTarget::Nothing, 10),
    ];
    lemma_best_kept(s12, tail);
}

/// The climate and weather evaluators stay within their priority bands:
/// hibernation 75-80, storm fleeing 90, heat stress 60-65, desperate
/// hunting 80-90, and cold stress 55-75 (55, plus 15 when hungry and 5
/// when exhausted), rising with hunger.
pub proof fn lemma_climate_priority_bands(i: BehaviorInputs)
    ensures
        hibernation_candidate(i) matches Some(d) ==> 75 <= d.priority <= 80 && d.behavior
            == BehaviorState::Hibernating,
        storm_candidate(i) matches Some(d) ==> d.priority == 90 && d.behavior == BehaviorState::Fleeing,
        heat_stress_candidate(i) matches Some(d) ==> 60 <= d.priority <= 65,
        desperate_hunt_candidate(i) matches Some(d) ==> 80 <= d.priority <= 90 && d.behavior
            == BehaviorState::Hunting,
        cold_stress_candidate(i) matches Some(d) ==> 55 <= d.priority <= 75 && d.behavior == BehaviorState::Resting,
        cold_stress_candidate(i) matches Some(d) ==> (d.priority >= 70 <==> i.hunger.below_low),
        desperate_hunt_candidate(i) is Some ==> i.prey_count < 2 && i.species.diet_type != DietType::Prey,
{
}

/// A herbivore proposes foraging as soon as its hunger is at or below the
/// comfortable level, at priority 45 or more (60 when hungry, 75 when
/// starving), heading for the nearest food where it sees some.
pub proof fn lemma_herbivore_forages_below_comfortable(i: BehaviorInputs)
    requires
        i.species.is_herbivore,
        !i.hunger.above_comfortable,
    ensures
        exists|k: int|
            0 <= k < candidates(i).len() && (#[trigger] candidates(i)[k]).behavior == BehaviorState::Foraging
                && candidates(i)[k].priority >= 45,
        forage_candidate(i) matches Some(d) && d.behavior == BehaviorState::Foraging && d.priority >= 45,
        forage_candidate(i) matches Some(d) && (i.nearest_food_out_of_reach is Some <==> d.target
            == DecisionTarget::NearestFood),
        forage_candidate(i) matches Some(d) && (!i.hunger.below_low && !i.hunger.below_critical ==> d.priority
            == 45),
{
    let pre = opt_seq(hibernation_candidate(i)) + opt_seq(storm_candidate(i)) + opt_seq(flee_candidate(i))
        + opt_seq(cold_stress_candidate(i)) + opt_seq(heat_stress_candidate(i)) + opt_seq(
        desperate_hunt_candidate(i),
    ) + opt_seq(hunt_candidate(i)) + opt_seq(drink_candidate(i)) + opt_seq(eat_candidate(i));
    let d = forage_candidate(i)->0;
    let s10 = pre + opt_seq(forage_candidate(i));
    assert(s10[pre.len() as int] == d);
    let s11 = s10 + opt_seq(rest_candidate(i));
    let s12 = s11 + opt_seq(mate_candidate(i));
    assert(s12[pre.len() as int] == d);
    assert(candidates(i)[pre.len() as int] == d);
}

/// A living herbivore whose only need is food (hunger at or below the
/// comfortable level but not low; thirst, energy and the urge to mate
/// satisfied), with no threat, prey or hazard around and a mild, non-winter
/// climate, forages rather than wanders.
pub proof fn lemma_fed_enough_herbivore_forages(i: BehaviorInputs)
    requires
        i.is_alive,
        i.species.is_herbivore,
        !i.hunger.above_comfortable,
        i.hunger.above_low,
        i.thirst.above_low,
        i.energy.above_low,
        i.reproduction.below_comfortable,
        i.nearest_threat is None,
        i.nearest_prey is None,
        !i.hazard_nearby,
        i.mild_for_cold_stress,
        i.below_heat_limit,
        i.season != Season::Winter,
    ensures
        selected(i).behavior == BehaviorState::Foraging,
        selected(i).priority >= 45,
        !i.hunger.below_low && !i.hunger.below_critical ==> selected(i).priority == 45,
        i.nearest_food_out_of_reach is None ==> selected(i).target == DecisionTarget::Nothing,
{
    let f = forage_candidate(i)->0;
    let w = decision(BehaviorState::Wandering, DecisionTarget::Nothing, 20);
    let z = decision(BehaviorState::Idle, DecisionTarget::Nothing, 10);
    let s = seq![f, w, z];
    assert(candidates(i) =~= s);
    assert(s.drop_last() =~= seq![f, w]);
    assert(seq![f, w].drop_last() =~= seq![f]);
    assert(first_best(seq![f]) == f);
    assert(first_best(seq![f, w]) == f);
    assert(first_best(s) == f);
}

} // verus!
