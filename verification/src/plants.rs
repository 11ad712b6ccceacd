//! Plant growth: the stage machine a plant follows, its dormancy, and the
//! grouping used to keep plant populations topped up.

use vstd::prelude::*;

use crate::climate::Season;
use crate::text::str_eq;
use crate::types::PlantGrowthStage;

verus! {

/// Kind of plant.
#[derive(Debug, Clone, Copy, PartialEq, Eq, Structural)]
pub enum PlantType {
    Grass,
    Vegetable,
    Herb,
    FruitTree,
}

/// How a plant grows in the current season.
#[derive(Debug, Clone, Copy, PartialEq, Eq, Structural)]
pub enum GrowthRegime {
    /// Dormant: no growth at all.
    Dormant,
    /// A growing season of the species: grows at the climate's rate.
    InSeason,
    /// Outside its growing seasons: minimal growth.
    OffSeason,
}

/// Index of the first occurrence of `x` at or after `i`, or -1.
pub open spec fn index_from(s: Seq<PlantGrowthStage>, x: PlantGrowthStage, i: int) -> int
    decreases s.len() - i,
{
    if i < 0 || i >= s.len() {
        -1
    } else if s[i] == x {
        i
    } else {
        index_from(s, x, i + 1)
    }
}

/// The first-occurrence search finds an occurrence when there is one, and
/// only then.
pub proof fn lemma_index_from(s: Seq<PlantGrowthStage>, x: PlantGrowthStage, i: int)
    requires
        0 <= i,
    ensures
        index_from(s, x, i) == -1 || (i <= index_from(s, x, i) < s.len() && s[index_from(s, x, i)] == x),
        (exists|j: int| i <= j < s.len() && s[j] == x) ==> index_from(s, x, i) >= 0,
    decreases s.len() - i,
{
    if i < s.len() && s[i] != x {
        lemma_index_from(s, x, i + 1);
        if exists|j: int| i <= j < s.len() && s[j] == x {
            let j = choose|j: int| i <= j < s.len() && s[j] == x;
            assert(j != i);
            assert(i + 1 <= j);
        }
    }
}

/// Index of the first mature stage, or of the last stage when none is
/// mature (0 for an empty list).
pub open spec fn mature_index(stages: Seq<PlantGrowthStage>) -> int {
    let k = index_from(stages, PlantGrowthStage::Mature, 0);
    if k >= 0 {
        k
    } else if stages.len() == 0 {
        0
    } else {
        stages.len() - 1
    }
}

/// The stage at an index, or mature when the index is past the end.
pub open spec fn stage_or_mature(stages: Seq<PlantGrowthStage>, idx: int) -> PlantGrowthStage {
    if 0 <= idx < stages.len() {
        stages[idx]
    } else {
        PlantGrowthStage::Mature
    }
}

/// Stage and stage index a new plant starts with: the mature stage for
/// initial flora, else the first stage (seed when the species lists none).
pub open spec fn initial_growth(stages: Seq<PlantGrowthStage>, start_mature: bool) -> (PlantGrowthStage, int) {
    if start_mature {
        (stage_or_mature(stages, mature_index(stages)), mature_index(stages))
    } else if stages.len() > 0 {
        (stages[0], 0)
    } else {
        (PlantGrowthStage::Seed, 0)
    }
}

/// Index of the first mature stage, or of the last stage when none is mature.
pub fn mature_stage_index(stages: &[PlantGrowthStage]) -> (idx: usize)
    ensures
        idx == mature_index(stages@),
{
    let n = stages.len();
    let mut i: usize = 0;
    while i < n
        invariant
            n == stages@.len(),
            i <= n,
            index_from(stages@, PlantGrowthStage::Mature, 0) == index_from(stages@, PlantGrowthStage::Mature, i as int),
        decreases n - i,
    {
        if stages[i] == PlantGrowthStage::Mature {
            return i;
        }
        i = i + 1;
    }
    if n == 0 {
        0
    } else {
        n - 1
    }
}

/// Stage and stage index a new plant starts with.
pub fn initial_stage(stages: &[PlantGrowthStage], start_mature: bool) -> (r: (PlantGrowthStage, usize))
    ensures
        r.0 == initial_growth(stages@, start_mature).0,
        r.1 == initial_growth(stages@, start_mature).1,
{
    if start_mature {
        let idx = mature_stage_index(stages);
        let stage = if idx < stages.len() {
            stages[idx]
        } else {
            PlantGrowthStage::Mature
        };
        (stage, idx)
    } else {
        let stage = if stages.len() > 0 {
            stages[0]
        } else {
            PlantGrowthStage::Seed
        };
        (stage, 0)
    }
}

/// A mature start lands on a listed stage whenever the species lists any,
/// and on a mature one whenever the species has one.
pub proof fn lemma_mature_start_is_mature(stages: Seq<PlantGrowthStage>)
    ensures
        stages.len() > 0 ==> 0 <= mature_index(stages) < stages.len(),
        (exists|i: int| 0 <= i < stages.len() && stages[i] == PlantGrowthStage::Mature) ==> initial_growth(
            stages,
            true,
        ).0 == PlantGrowthStage::Mature,
{
    lemma_index_from(stages, PlantGrowthStage::Mature, 0);
}

/// Whether a plant at `stage_index` has no further stage to grow into.
pub fn growth_complete(stage_index: usize, n_stages: usize) -> (done: bool)
    ensures
        done == (stage_index + 1 >= n_stages),
{
    n_stages == 0 || stage_index >= n_stages - 1
}

/// How a plant grows in `season`.
pub open spec fn regime_of(dormant_in_winter: bool, growing_seasons: Seq<Season>, season: Season) -> GrowthRegime {
    if dormant_in_winter && season == Season::Winter {
        GrowthRegime::Dormant
    } else if growing_seasons.contains(season) {
        GrowthRegime::InSeason
    } else {
        GrowthRegime::OffSeason
    }
}

/// How a plant of a species grows in the current season: dormant in winter
/// if the species goes dormant, at full rate in its growing seasons, and
/// minimally otherwise.
pub fn growth_regime(dormant_in_winter: bool, growing_seasons: &[Season], season: Season) -> (r: GrowthRegime)
    ensures
        r == regime_of(dormant_in_winter, growing_seasons@, season),
{
    if dormant_in_winter && season == Season::Winter {
        return GrowthRegime::Dormant;
    }
    let n = growing_seasons.len();
    let mut i: usize = 0;
    while i < n
        invariant
            n == growing_seasons@.len(),
            i <= n,
            !(dormant_in_winter && season == Season::Winter),
            forall|j: int| 0 <= j < i ==> growing_seasons@[j] != season,
        decreases n - i,
    {
        if growing_seasons[i] == season {
            assert(growing_seasons@[i as int] == season);
            return GrowthRegime::InSeason;
        }
        i = i + 1;
    }
    GrowthRegime::OffSeason
}

/// A plant grows at full rate in every season listed among its growing
/// seasons, wherever in the list it stands, unless it is winter and the
/// plant goes dormant; it grows minimally in a season the list does not
/// name; and a plant that goes dormant is dormant in every winter, whatever
/// its list.
pub proof fn lemma_regime_by_listed_seasons(dormant_in_winter: bool, growing_seasons: Seq<Season>, season: Season)
    ensures
        dormant_in_winter && season == Season::Winter ==> regime_of(dormant_in_winter, growing_seasons, season)
            == GrowthRegime::Dormant,
        !(dormant_in_winter && season == Season::Winter) && (exists|j: int|
            0 <= j < growing_seasons.len() && growing_seasons[j] == season) ==> regime_of(
            dormant_in_winter,
            growing_seasons,
            season,
        ) == GrowthRegime::InSeason,
        !(dormant_in_winter && season == Season::Winter) && (forall|j: int|
            0 <= j < growing_seasons.len() ==> growing_seasons[j] != season) ==> regime_of(
            dormant_in_winter,
            growing_seasons,
            season,
        ) == GrowthRegime::OffSeason,
{
}

/// Where a plant stands after finishing a stage.
#[derive(Debug, Clone, Copy, PartialEq, Eq, Structural)]
pub struct StageAdvance {
    pub stage_index: usize,
    pub stage: PlantGrowthStage,
    /// The stage to announce to the game server, if any.
    pub announced: Option<PlantGrowthStage>,
}

/// Index of the first occurrence of `stage`, or 0 when it does not occur.
pub open spec fn position_or_zero(stages: Seq<PlantGrowthStage>, stage: PlantGrowthStage) -> int {
    let k = index_from(stages, stage, 0);
    if k >= 0 {
        k
    } else {
        0
    }
}

/// The plant's stage after it completes the stage at `stage_index`: the next
/// listed stage (announced); past the last stage, fruit trees that regrow
/// return to their regrow stage silently, and every other plant withers
/// (announced).
pub open spec fn advance_of(
    stages: Seq<PlantGrowthStage>,
    stage_index: int,
    regrows_after_harvest: bool,
    plant_type: PlantType,
    regrow_stage: PlantGrowthStage,
) -> StageAdvance {
    let next = stage_index + 1;
    if next < stages.len() {
        StageAdvance { stage_index: next as usize, stage: stages[next], announced: Some(stages[next]) }
    } else if regrows_after_harvest && plant_type == PlantType::FruitTree {
        StageAdvance {
            stage_index: position_or_zero(stages, regrow_stage) as usize,
            stage: regrow_stage,
            announced: None,
        }
    } else {
        StageAdvance {
            stage_index: next as usize,
            stage: PlantGrowthStage::Withering,
            announced: Some(PlantGrowthStage::Withering),
        }
    }
}

fn first_position(stages: &[PlantGrowthStage], stage: PlantGrowthStage) -> (idx: usize)
    ensures
        idx == position_or_zero(stages@, stage),
{
    let n = stages.len();
    let mut i: usize = 0;
    while i < n
        invariant
            n == stages@.len(),
            i <= n,
            index_from(stages@, stage, 0) == index_from(stages@, stage, i as int),
        decreases n - i,
    {
        if stages[i] == stage {
            return i;
        }
        i = i + 1;
    }
    0
}

/// Completes the current stage of a plant (its progress reached 1).
pub fn finish_stage(
    stages: &[PlantGrowthStage],
    stage_index: usize,
    regrows_after_harvest: bool,
    plant_type: PlantType,
    regrow_stage: PlantGrowthStage,
) -> (r: StageAdvance)
    requires
        stage_index < usize::MAX,
    ensures
        r == advance_of(stages@, stage_index as int, regrows_after_harvest, plant_type, regrow_stage),
{
    let next = stage_index + 1;
    if next < stages.len() {
        let s = stages[next];
        StageAdvance { stage_index: next, stage: s, announced: Some(s) }
    } else if regrows_after_harvest && plant_type == PlantType::FruitTree {
        StageAdvance {
            stage_index: first_position(stages, regrow_stage),
            stage: regrow_stage,
            announced: None,
        }
    } else {
        StageAdvance {
            stage_index: next,
            stage: PlantGrowthStage::Withering,
            announced: Some(PlantGrowthStage::Withering),
        }
    }
}

/// A plant's stage index never runs past its stage list: finishing a listed
/// stage leaves the index at most one past the last stage, and an announced
/// stage other than withering is the stage now at the index.
pub proof fn lemma_finish_stage_stays_in_list(
    stages: Seq<PlantGrowthStage>,
    stage_index: int,
    regrows: bool,
    plant_type: PlantType,
    regrow_stage: PlantGrowthStage,
)
    requires
        0 <= stage_index < stages.len(),
        stages.len() < usize::MAX,
    ensures
        ({
            let a = advance_of(stages, stage_index, regrows, plant_type, regrow_stage);
            &&& a.stage_index <= stages.len()
            &&& a.announced matches Some(s) ==> (s != PlantGrowthStage::Withering ==> a.stage_index
                < stages.len() && stages[a.stage_index as int] == s)
        }),
{
    lemma_index_from(stages, regrow_stage, 0);
}

/// Herbivores eat plants that are growing, mature or flowering.
pub open spec fn forageable(stage: PlantGrowthStage) -> bool {
    stage == PlantGrowthStage::Mature || stage == PlantGrowthStage::Growing || stage == PlantGrowthStage::Flowering
}

/// Whether herbivores can eat a plant at this stage.
pub fn stage_is_forageable(stage: PlantGrowthStage) -> (r: bool)
    ensures
        r == forageable(stage),
{
    match stage {
        PlantGrowthStage::Mature | PlantGrowthStage::Growing | PlantGrowthStage::Flowering => true,
        _ => false,
    }
}

/// Population groups the zone keeps topped up.
#[derive(Debug, Clone, Copy, PartialEq, Eq, Structural)]
pub enum PlantGroup {
    /// grass, clover
    GroundCover,
    /// carrot, potato, onion, garlic
    Vegetable,
    /// herb_sage, mushroom, berry_bush
    Herb,
    /// apple_tree, pear_tree
    Tree,
}

/// The group a plant species belongs to.
pub open spec fn group_of(id: Seq<char>) -> Option<PlantGroup> {
    if id == "grass"@ || id == "clover"@ {
        Some(PlantGroup::GroundCover)
    } else if id == "carrot"@ || id == "potato"@ || id == "onion"@ || id == "garlic"@ {
        Some(PlantGroup::Vegetable)
    } else if id == "herb_sage"@ || id == "mushroom"@ || id == "berry_bush"@ {
        Some(PlantGroup::Herb)
    } else if id == "apple_tree"@ || id == "pear_tree"@ {
        Some(PlantGroup::Tree)
    } else {
        None
    }
}

/// The group a plant species belongs to, if any.
pub fn plant_group(species_id: &str) -> (g: Option<PlantGroup>)
    ensures
        g == group_of(species_id@),
{
    if str_eq(species_id, "grass") || str_eq(species_id, "clover") {
        Some(PlantGroup::GroundCover)
    } else if str_eq(species_id, "carrot") || str_eq(species_id, "potato") || str_eq(species_id, "onion")
        || str_eq(species_id, "garlic") {
        Some(PlantGroup::Vegetable)
    } else if str_eq(species_id, "herb_sage") || str_eq(species_id, "mushroom") || str_eq(
        species_id,
        "berry_bush",
    ) {
        Some(PlantGroup::Herb)
    } else if str_eq(species_id, "apple_tree") || str_eq(species_id, "pear_tree") {
        Some(PlantGroup::Tree)
    } else {
        None
    }
}

/// Ground cover (grass, clover) may grow on road surfaces.
pub fn is_ground_cover(species_id: &str) -> (r: bool)
    ensures
        r == (group_of(species_id@) == Some(PlantGroup::GroundCover)),
{
    str_eq(species_id, "grass") || str_eq(species_id, "clover")
}

/// How many plants of a group to spawn this round: the shortfall against
/// the target, at most `batch`.
pub fn spawn_shortfall(target: usize, count: usize, batch: usize) -> (n: usize)
    ensures
        count >= target ==> n == 0,
        count < target ==> n == if target - count <= batch {
            (target - count) as usize
        } else {
            batch
        },
{
    if count < target {
        let short = target - count;
        if short <= batch {
            short
        } else {
            batch
        }
    } else {
        0
    }
}

} // verus!
