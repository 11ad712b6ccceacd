//! Per-animal decisions around movement and reproduction that read only
//! behaviour, sex, flags and timestamps.

use vstd::prelude::*;

use crate::schedule::diff_fits;
use crate::text::str_eq;
use crate::types::{BehaviorState, Sex};

verus! {

/// How fast an animal moves for its behaviour, relative to its species'
/// base speed.
#[derive(Debug, Clone, Copy, PartialEq, Eq, Structural)]
pub enum Gait {
    /// Does not move.
    Still,
    /// Base speed times the species' flee multiplier.
    Sprint,
    /// Base speed.
    Run,
    /// Half the base speed.
    Creep,
    /// Seven tenths of the base speed.
    Amble,
}

/// The gait of a behaviour.
pub open spec fn gait_of(b: BehaviorState) -> Gait {
    match b {
        BehaviorState::Hibernating => Gait::Still,
        BehaviorState::Fleeing => Gait::Sprint,
        BehaviorState::Hunting | BehaviorState::SeekingMate => Gait::Run,
        BehaviorState::Stalking => Gait::Creep,
        BehaviorState::Foraging | BehaviorState::Wandering => Gait::Amble,
        _ => Gait::Still,
    }
}

/// The gait an animal moves at for its chosen behaviour.
pub fn gait_for(behavior: BehaviorState) -> (g: Gait)
    ensures
        g == gait_of(behavior),
{
    match behavior {
        BehaviorState::Hibernating => Gait::Still,
        BehaviorState::Fleeing => Gait::Sprint,
        BehaviorState::Hunting | BehaviorState::SeekingMate => Gait::Run,
        BehaviorState::Stalking => Gait::Creep,
        BehaviorState::Foraging | BehaviorState::Wandering => Gait::Amble,
        _ => Gait::Still,
    }
}

/// Urgent behaviours repath sooner and follow a moving target closely.
pub open spec fn urgent(b: BehaviorState) -> bool {
    b == BehaviorState::Hunting || b == BehaviorState::Fleeing || b == BehaviorState::Stalking || b
        == BehaviorState::SeekingMate
}

/// Whether a behaviour is urgent (hunting, fleeing, stalking, seeking a mate).
pub fn is_urgent_behavior(behavior: BehaviorState) -> (r: bool)
    ensures
        r == urgent(behavior),
{
    match behavior {
        BehaviorState::Hunting | BehaviorState::Fleeing | BehaviorState::Stalking | BehaviorState::SeekingMate => true,
        _ => false,
    }
}

/// Age after which a path is recomputed: 2 s for urgent behaviours, 10 s
/// otherwise.
pub fn path_stale_after_ms(behavior: BehaviorState) -> (ms: i64)
    ensures
        ms == if urgent(behavior) {
            2000int
        } else {
            10000int
        },
{
    if is_urgent_behavior(behavior) {
        2000
    } else {
        10000
    }
}

/// Progress of an animal along its current path.
#[derive(Debug, Clone, Copy, PartialEq, Eq, Structural)]
pub struct PathProgress {
    pub current_index: usize,
    pub waypoint_count: usize,
    pub computed_at_ms: i64,
}

/// Whether an animal needs a new path.
pub open spec fn path_needed(existing: Option<PathProgress>, target_moved: bool, now: i64, b: BehaviorState) -> bool {
    match existing {
        None => true,
        Some(p) => p.current_index >= p.waypoint_count || target_moved || now - p.computed_at_ms > (if urgent(b) {
            2000int
        } else {
            10000int
        }),
    }
}

/// An animal needs a new path when it has none, has walked all of it, its
/// target moved beyond tolerance, or the path has gone stale.
pub fn needs_new_path(existing: Option<PathProgress>, target_moved: bool, now_ms: i64, behavior: BehaviorState) -> (r: bool)
    requires
        existing matches Some(p) ==> diff_fits(now_ms, p.computed_at_ms),
    ensures
        r == path_needed(existing, target_moved, now_ms, behavior),
{
    match existing {
        None => true,
        Some(p) => p.current_index >= p.waypoint_count || target_moved || now_ms - p.computed_at_ms
            > path_stale_after_ms(behavior),
    }
}

/// Whether a pregnant animal gives birth at `now_ms`.
pub fn birth_due(is_pregnant: bool, pregnancy_ends_at: Option<i64>, now_ms: i64) -> (r: bool)
    ensures
        r == (is_pregnant && (pregnancy_ends_at matches Some(t) && now_ms >= t)),
{
    is_pregnant && match pregnancy_ends_at {
        Some(t) => now_ms >= t,
        None => false,
    }
}

/// Whether mating this tick may make an animal pregnant: a female, not yet
/// pregnant, mating with a chosen partner.
pub fn should_initiate_pregnancy(behavior: BehaviorState, sex: Sex, is_pregnant: bool, has_partner: bool) -> (r: bool)
    ensures
        r == (behavior == BehaviorState::Mating && sex == Sex::Female && !is_pregnant && has_partner),
{
    behavior == BehaviorState::Mating && sex == Sex::Female && !is_pregnant && has_partner
}

/// Whether `other` is a potential mate of an animal.
pub open spec fn mate_for(
    my_species: Seq<char>,
    my_sex: Sex,
    other_species: Seq<char>,
    other_mature: bool,
    other_sex: Sex,
    other_pregnant: bool,
) -> bool {
    other_species == my_species && other_mature && other_sex != my_sex && !other_pregnant
}

/// Only a mature, non-pregnant animal of the same species and the other sex
/// is a potential mate.
pub fn is_potential_mate(
    my_species: &str,
    my_sex: Sex,
    other_species: &str,
    other_mature: bool,
    other_sex: Sex,
    other_pregnant: bool,
) -> (r: bool)
    ensures
        r == mate_for(my_species@, my_sex, other_species@, other_mature, other_sex, other_pregnant),
{
    str_eq(other_species, my_species) && other_mature && other_sex != my_sex && !other_pregnant
}

/// Courtship is mutual between a mature male and a mature, non-pregnant
/// female of the same species: each is a potential mate of the other. A
/// pregnant female is nobody's potential mate.
pub proof fn lemma_mates_are_mutual(species: Seq<char>, female_pregnant: bool)
    ensures
        !female_pregnant ==> mate_for(species, Sex::Male, species, true, Sex::Female, female_pregnant)
            && mate_for(species, Sex::Female, species, true, Sex::Male, false),
        female_pregnant ==> !mate_for(species, Sex::Male, species, true, Sex::Female, female_pregnant),
{
}

/// The sexes of a new population: `males` males followed by `females`
/// females.
pub fn spawn_sexes(males: usize, females: usize) -> (v: Vec<Sex>)
    requires
        males + females <= usize::MAX,
    ensures
        v@.len() == males + females,
        forall|i: int| 0 <= i < males ==> v@[i] == Sex::Male,
        forall|i: int| males <= i < males + females ==> v@[i] == Sex::Female,
{
    let mut v: Vec<Sex> = Vec::new();
    let mut i: usize = 0;
    while i < males
        invariant
            i <= males,
            v@.len() == i,
            forall|j: int| 0 <= j < i ==> v@[j] == Sex::Male,
        decreases males - i,
    {
        v.push(Sex::Male);
        i = i + 1;
    }
    let mut k: usize = 0;
    while k < females
        invariant
            k <= females,
            males + females <= usize::MAX,
            v@.len() == males + k,
            forall|j: int| 0 <= j < males ==> v@[j] == Sex::Male,
            forall|j: int| males <= j < males + k ==> v@[j] == Sex::Female,
        decreases females - k,
    {
        v.push(Sex::Female);
        k = k + 1;
    }
    v
}

/// Visual variant of a plant, from the plant counter at its creation.
pub fn plant_variant(next_plant_id: u64) -> (v: u8)
    ensures
        v == next_plant_id % 5,
        v < 5,
{
    (next_plant_id % 5) as u8
}

} // verus!
