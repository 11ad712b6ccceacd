//! Classification types shared by the whole simulation.

use vstd::prelude::*;

verus! {

/// Most special charges an entity can hold.
pub const SPECIAL_CHARGE_MAX: u32 = 5;

/// Zone-level biome of the simulation.
#[derive(Debug, Clone, Copy, PartialEq, Eq, Hash, Structural)]
pub enum BiomeType {
    Forest,
    Grassland,
    Desert,
    Tundra,
    Swamp,
    Mountain,
    Coastal,
    Freshwater,
    Ocean,
    Urban,
    Underground,
}

/// Feeding role of a species.
#[derive(Debug, Clone, Copy, PartialEq, Eq, Structural)]
pub enum DietType {
    Predator,
    Prey,
    Hybrid,
}

#[derive(Debug, Clone, Copy, PartialEq, Eq, Structural)]
pub enum Sex {
    Male,
    Female,
}

/// Relative body size of a species.
#[derive(Debug, Clone, Copy, PartialEq, Eq, PartialOrd, Ord, Hash, Structural)]
pub enum SizeClass {
    Tiny,
    Small,
    Medium,
    Large,
    Huge,
}

impl SizeClass {
    /// Rank of the size class: 1 for tiny up to 5 for huge.
    pub open spec fn rank(self) -> int {
        match self {
            SizeClass::Tiny => 1,
            SizeClass::Small => 2,
            SizeClass::Medium => 3,
            SizeClass::Large => 4,
            SizeClass::Huge => 5,
        }
    }

    /// Numeric value of the size class, from 1 (tiny) to 5 (huge).
    pub fn value(&self) -> (v: i32)
        ensures
            v == self.rank(),
            1 <= v <= 5,
    {
        match self {
            SizeClass::Tiny => 1,
            SizeClass::Small => 2,
            SizeClass::Medium => 3,
            SizeClass::Large => 4,
            SizeClass::Huge => 5,
        }
    }
}

/// What an animal is currently doing.
#[derive(Debug, Clone, Copy, PartialEq, Eq, Hash, Structural)]
pub enum BehaviorState {
    Idle,
    Wandering,
    Foraging,
    Hunting,
    Stalking,
    Fleeing,
    Drinking,
    Eating,
    Resting,
    SeekingMate,
    Mating,
    Defending,
    Attacking,
    Hibernating,
    Dying,
    Dead,
}

impl BehaviorState {
    /// Urgency of a behaviour; higher values are more urgent.
    pub open spec fn urgency(self) -> int {
        match self {
            BehaviorState::Dead => 100,
            BehaviorState::Dying => 99,
            BehaviorState::Hibernating => 80,
            BehaviorState::Fleeing => 90,
            BehaviorState::Attacking => 85,
            BehaviorState::Defending => 80,
            BehaviorState::Drinking => 70,
            BehaviorState::Eating => 65,
            BehaviorState::Foraging => 35,
            BehaviorState::Hunting => 45,
            BehaviorState::Stalking => 40,
            BehaviorState::SeekingMate => 50,
            BehaviorState::Mating => 55,
            BehaviorState::Resting => 60,
            BehaviorState::Wandering => 20,
            BehaviorState::Idle => 10,
        }
    }

    /// Priority for behaviour selection (higher = more urgent).
    pub fn priority(&self) -> (p: i32)
        ensures
            p == self.urgency(),
    {
        match self {
            BehaviorState::Dead => 100,
            BehaviorState::Dying => 99,
            BehaviorState::Hibernating => 80,
            BehaviorState::Fleeing => 90,
            BehaviorState::Attacking => 85,
            BehaviorState::Defending => 80,
            BehaviorState::Drinking => 70,
            BehaviorState::Eating => 65,
            BehaviorState::Foraging => 35,
            BehaviorState::Hunting => 45,
            BehaviorState::Stalking => 40,
            BehaviorState::SeekingMate => 50,
            BehaviorState::Mating => 55,
            BehaviorState::Resting => 60,
            BehaviorState::Wandering => 20,
            BehaviorState::Idle => 10,
        }
    }
}

/// Being dead is the most urgent state and idling the least: every state's
/// priority lies between those of `Idle` and `Dead`, and only `Dead` reaches
/// the top. The needs tiers rank in order: survival (fleeing, drinking,
/// eating) above health (resting) above reproduction (seeking a mate) above
/// the other activities (hunting, foraging) above wandering.
pub proof fn lemma_priority_bounds(s: BehaviorState)
    ensures
        BehaviorState::Eating.urgency() > BehaviorState::Resting.urgency(),
        BehaviorState::Drinking.urgency() > BehaviorState::Resting.urgency(),
        BehaviorState::Fleeing.urgency() > BehaviorState::Resting.urgency(),
        BehaviorState::Resting.urgency() > BehaviorState::SeekingMate.urgency(),
        BehaviorState::SeekingMate.urgency() > BehaviorState::Hunting.urgency(),
        BehaviorState::Hunting.urgency() > BehaviorState::Foraging.urgency(),
        BehaviorState::Foraging.urgency() > BehaviorState::Wandering.urgency(),
        BehaviorState::Idle.urgency() <= s.urgency() <= BehaviorState::Dead.urgency(),
        s.urgency() == BehaviorState::Dead.urgency() <==> s == BehaviorState::Dead,
        s.urgency() == BehaviorState::Idle.urgency() <==> s == BehaviorState::Idle,
{
}

/// How a species lives together with its kind.
#[derive(Debug, Clone, Copy, PartialEq, Eq, Structural)]
pub enum SocialBehavior {
    Solitary,
    Pair,
    Pack,
    Herd,
}

/// Life stage of an animal.
#[derive(Debug, Clone, Copy, PartialEq, Eq, Structural)]
pub enum WildlifeAgeStage {
    Juvenile,
    Adult,
    Elder,
}

/// Growth stage of a plant.
#[derive(Debug, Clone, Copy, PartialEq, Eq, Hash, Structural)]
pub enum PlantGrowthStage {
    Seed,
    Sprout,
    Growing,
    Mature,
    Flowering,
    Withering,
    Dead,
}

} // verus!
