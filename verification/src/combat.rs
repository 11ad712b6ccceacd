//! Predation and experience: when a hunter strikes, what a kill is worth,
//! and how much experience each level takes.

use vstd::prelude::*;

use crate::types::{BehaviorState, SizeClass};

verus! {

/// Whether a hunter may strike this tick: alive, hunting, and off cooldown.
pub fn ready_to_strike(is_alive: bool, behavior: BehaviorState, now_ms: i64, attack_cooldown_until: i64) -> (r: bool)
    ensures
        r == (is_alive && behavior == BehaviorState::Hunting && now_ms >= attack_cooldown_until),
{
    is_alive && behavior == BehaviorState::Hunting && now_ms >= attack_cooldown_until
}

/// Hunger a predator regains from a kill, by the prey's size.
pub open spec fn food_value_of(size: SizeClass) -> int {
    match size {
        SizeClass::Tiny => 25,
        SizeClass::Small => 40,
        SizeClass::Medium => 60,
        SizeClass::Large => 80,
        SizeClass::Huge => 100,
    }
}

/// Hunger a predator regains from a kill, by the prey's size.
pub fn prey_food_value(size: SizeClass) -> (v: u32)
    ensures
        v == food_value_of(size),
{
    match size {
        SizeClass::Tiny => 25,
        SizeClass::Small => 40,
        SizeClass::Medium => 60,
        SizeClass::Large => 80,
        SizeClass::Huge => 100,
    }
}

/// Extra experience for a kill, by the prey's size: twice its size rank.
pub fn size_class_xp(size: SizeClass) -> (xp: u32)
    ensures
        xp == 2 * size.rank(),
{
    match size {
        SizeClass::Tiny => 2,
        SizeClass::Small => 4,
        SizeClass::Medium => 6,
        SizeClass::Large => 8,
        SizeClass::Huge => 10,
    }
}

/// Bigger prey is worth more: food value and experience both grow with the
/// prey's size.
pub proof fn lemma_bigger_prey_is_worth_more(a: SizeClass, b: SizeClass)
    ensures
        a.rank() < b.rank() ==> food_value_of(a) < food_value_of(b) && 2 * a.rank() < 2 * b.rank(),
{
}

/// Experience needed to advance from `level` to the next level.
pub fn experience_to_next(level: u32) -> (xp: u64)
    ensures
        xp == 50 + 25 * level,
{
    50 + 25 * (level as u64)
}

} // verus!
