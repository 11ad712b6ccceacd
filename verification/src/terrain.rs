//! Terrain classification: walkability flags, biomes, the flag layer of the
//! terrain grid, and the decisions that read it.

use vstd::prelude::*;

use crate::text::str_eq;
use crate::types::BiomeType;

verus! {

/// Resolution of the terrain grid along each axis.
pub const GRID_RESOLUTION: usize = 128;

/// Number of cells of the terrain grid.
pub const GRID_CELLS: usize = 16384;

/// Walkability bits of a navmesh cell, as the server's navmesh pipeline
/// publishes them.
#[derive(Debug, Clone, Copy, PartialEq, Eq, Hash, Structural)]
pub struct WalkabilityFlags {
    bits: u32,
}

impl View for WalkabilityFlags {
    type V = u32;

    closed spec fn view(&self) -> u32 {
        self.bits
    }
}

/// True when every bit of `mask` is set in `bits`.
pub open spec fn has_bits(bits: u32, mask: u32) -> bool {
    bits & mask == mask
}

impl WalkabilityFlags {
    pub const WALKABLE: u32 = 0;
    pub const BLOCKED_STRUCTURE: u32 = 1;
    pub const BLOCKED_WATER: u32 = 2;
    pub const BLOCKED_SLOPE: u32 = 4;
    pub const BLOCKED_CORRUPTION: u32 = 8;
    pub const ROAD: u32 = 16;
    pub const DENSE_VEGETATION: u32 = 32;
    pub const RUBBLE: u32 = 64;
    pub const INDOOR: u32 = 128;
    /// Every defined flag.
    pub const ALL: u32 = 255;
    /// Mask for any blocking flag.
    pub const BLOCK_MASK: u32 = 15;

    /// No flag set: an open, walkable cell.
    pub fn empty() -> (f: Self)
        ensures
            f@ == 0,
    {
        WalkabilityFlags { bits: 0 }
    }

    /// Flags from raw bits, dropping bits that name no flag.
    pub fn from_bits_truncate(bits: u32) -> (f: Self)
        ensures
            f@ == bits & 255,
    {
        WalkabilityFlags { bits: bits & Self::ALL }
    }

    /// The raw bits.
    pub fn bits(&self) -> (b: u32)
        ensures
            b == self@,
    {
        self.bits
    }

    /// True when every flag of `other` is also set here.
    pub fn contains(&self, other: Self) -> (r: bool)
        ensures
            r == has_bits(self@, other@),
    {
        (self.bits & other.bits) == other.bits
    }

    /// True when every bit of the raw mask `mask` is set here.
    pub fn contains_bits(&self, mask: u32) -> (r: bool)
        ensures
            r == has_bits(self@, mask),
    {
        (self.bits & mask) == mask
    }

    /// The flags of both.
    pub fn union(self, other: Self) -> (f: Self)
        ensures
            f@ == self@ | other@,
    {
        WalkabilityFlags { bits: self.bits | other.bits }
    }

    /// Sets every flag of `other`.
    pub fn insert(&mut self, other: Self)
        ensures
            final(self)@ == old(self)@ | other@,
    {
        self.bits = self.bits | other.bits;
    }

    /// True if any blocking flag (structure, water, slope, corruption) is set.
    pub fn is_blocked(self) -> (r: bool)
        ensures
            r == (self@ & 15 != 0),
            r == (has_bits(self@, 1) || has_bits(self@, 2) || has_bits(self@, 4) || has_bits(self@, 8)),
    {
        let b = self.bits;
        assert((b & 15u32 != 0) == ((b & 1u32) == 1u32 || (b & 2u32) == 2u32 || (b & 4u32) == 4u32
            || (b & 8u32) == 8u32)) by (bit_vector);
        (self.bits & Self::BLOCK_MASK) != 0
    }

    /// True if the cell is a structure footprint (any kind).
    pub fn is_structure(self) -> (r: bool)
        ensures
            r == (has_bits(self@, 1) || has_bits(self@, 128)),
    {
        self.contains_bits(Self::BLOCKED_STRUCTURE) || self.contains_bits(Self::INDOOR)
    }

    /// True if the cell is rubble from collapsed structures.
    pub fn is_rubble(self) -> (r: bool)
        ensures
            r == has_bits(self@, 64),
    {
        self.contains_bits(Self::RUBBLE)
    }

    /// True if the cell can serve as shelter (rubble without full block).
    pub fn is_shelter(self) -> (r: bool)
        ensures
            r == (has_bits(self@, 64) && !has_bits(self@, 1)),
    {
        self.is_rubble() && !self.contains_bits(Self::BLOCKED_STRUCTURE)
    }
}

/// Shelter is a special kind of rubble: every shelter cell is rubble and no
/// shelter cell is a blocked structure footprint, so a shelter is never
/// blocked by a structure.
pub proof fn lemma_shelter_is_unblocked_rubble(bits: u32)
    ensures
        (has_bits(bits, 64) && !has_bits(bits, 1)) ==> has_bits(bits, 64),
        (has_bits(bits, 64) && !has_bits(bits, 1)) ==> bits & 1 == 0,
{
    assert(!has_bits(bits, 1) ==> bits & 1 == 0) by (bit_vector);
}

/// Truncating raw bits keeps exactly the defined flags: truncating twice is
/// truncating once, and the truncated value never exceeds `ALL`.
pub proof fn lemma_truncate_idempotent(bits: u32)
    ensures
        (bits & 255) & 255 == bits & 255,
        bits & 255 <= 255,
{
    assert((bits & 255) & 255 == bits & 255) by (bit_vector);
    assert(bits & 255 <= 255) by (bit_vector);
}

/// Adding flags never unblocks a cell: a blocked cell stays blocked after a
/// union with any other flags.
pub proof fn lemma_union_keeps_blocked(a: u32, b: u32)
    ensures
        a & 15 != 0 ==> (a | b) & 15 != 0,
{
    assert(a & 15 != 0 ==> (a | b) & 15 != 0) by (bit_vector);
}

/// Biome of a terrain cell, as the server's biome pipeline names them.
#[derive(Debug, Clone, Copy, PartialEq, Eq, Hash, Structural)]
pub enum TerrainBiome {
    Forest,
    Scrub,
    Grassland,
    Marsh,
    Desert,
    Rocky,
    Tundra,
    Ruins,
    Water,
    Coastal,
    Farmland,
}

/// State of a ruined structure.
#[derive(Debug, Clone, Copy, PartialEq, Eq, Structural)]
pub enum StructureCondition {
    Intact,
    Damaged,
    PartialCollapse,
    Collapsed,
    Burned,
}

/// Which layers the server has for a tile.
#[derive(Debug, Clone, Copy, PartialEq, Eq, Structural)]
pub struct TileLayerAvailability {
    pub elevation: bool,
    pub navmesh: bool,
    pub biome: bool,
    pub ruins: bool,
    pub water: bool,
}

/// The terrain biome that a server biome name stands for; names that the
/// library does not know are grassland.
pub open spec fn biome_named(s: Seq<char>) -> TerrainBiome {
    if s == "FOREST"@ || s == "MIXED_FOREST"@ || s == "BOREAL_FOREST"@ || s == "TEMPERATE_FOREST"@ {
        TerrainBiome::Forest
    } else if s == "SCRUB"@ {
        TerrainBiome::Scrub
    } else if s == "GRASSLAND"@ {
        TerrainBiome::Grassland
    } else if s == "MARSH"@ {
        TerrainBiome::Marsh
    } else if s == "DESERT"@ {
        TerrainBiome::Desert
    } else if s == "ROCKY"@ {
        TerrainBiome::Rocky
    } else if s == "TUNDRA"@ {
        TerrainBiome::Tundra
    } else if s == "RUINS"@ {
        TerrainBiome::Ruins
    } else if s == "WATER"@ {
        TerrainBiome::Water
    } else if s == "COASTAL"@ {
        TerrainBiome::Coastal
    } else if s == "FARMLAND"@ {
        TerrainBiome::Farmland
    } else {
        TerrainBiome::Grassland
    }
}

/// Parses the server's dominant-biome name.
pub fn parse_biome(s: &str) -> (b: TerrainBiome)
    ensures
        b == biome_named(s@),
{
    if str_eq(s, "FOREST") || str_eq(s, "MIXED_FOREST") || str_eq(s, "BOREAL_FOREST") || str_eq(
        s,
        "TEMPERATE_FOREST",
    ) {
        TerrainBiome::Forest
    } else if str_eq(s, "SCRUB") {
        TerrainBiome::Scrub
    } else if str_eq(s, "GRASSLAND") {
        TerrainBiome::Grassland
    } else if str_eq(s, "MARSH") {
        TerrainBiome::Marsh
    } else if str_eq(s, "DESERT") {
        TerrainBiome::Desert
    } else if str_eq(s, "ROCKY") {
        TerrainBiome::Rocky
    } else if str_eq(s, "TUNDRA") {
        TerrainBiome::Tundra
    } else if str_eq(s, "RUINS") {
        TerrainBiome::Ruins
    } else if str_eq(s, "WATER") {
        TerrainBiome::Water
    } else if str_eq(s, "COASTAL") {
        TerrainBiome::Coastal
    } else if str_eq(s, "FARMLAND") {
        TerrainBiome::Farmland
    } else {
        TerrainBiome::Grassland
    }
}

/// The zone biome that a terrain biome counts as.
pub open spec fn zone_biome_of(tb: TerrainBiome) -> BiomeType {
    match tb {
        TerrainBiome::Forest => BiomeType::Forest,
        TerrainBiome::Scrub => BiomeType::Grassland,
        TerrainBiome::Grassland => BiomeType::Grassland,
        TerrainBiome::Marsh => BiomeType::Swamp,
        TerrainBiome::Desert => BiomeType::Desert,
        TerrainBiome::Rocky => BiomeType::Mountain,
        TerrainBiome::Tundra => BiomeType::Tundra,
        TerrainBiome::Ruins => BiomeType::Urban,
        TerrainBiome::Water => BiomeType::Freshwater,
        TerrainBiome::Coastal => BiomeType::Coastal,
        TerrainBiome::Farmland => BiomeType::Grassland,
    }
}

/// Maps a terrain cell's biome to the simulation's zone biome.
pub fn terrain_biome_to_zone_biome(tb: TerrainBiome) -> (b: BiomeType)
    ensures
        b == zone_biome_of(tb),
{
    match tb {
        TerrainBiome::Forest => BiomeType::Forest,
        TerrainBiome::Scrub => BiomeType::Grassland,
        TerrainBiome::Grassland => BiomeType::Grassland,
        TerrainBiome::Marsh => BiomeType::Swamp,
        TerrainBiome::Desert => BiomeType::Desert,
        TerrainBiome::Rocky => BiomeType::Mountain,
        TerrainBiome::Tundra => BiomeType::Tundra,
        TerrainBiome::Ruins => BiomeType::Urban,
        TerrainBiome::Water => BiomeType::Freshwater,
        TerrainBiome::Coastal => BiomeType::Coastal,
        TerrainBiome::Farmland => BiomeType::Grassland,
    }
}

/// Whether flora may grow on a cell, given its navmesh flags and whether the
/// fine water, building-interior and road-surface grids block the spot.
pub open spec fn flora_permitted(
    cell: u32,
    is_ground_cover: bool,
    fine_water_blocked: bool,
    fine_building_blocked: bool,
    fine_road_blocked: bool,
) -> bool {
    if fine_water_blocked || has_bits(cell, 2) {
        false
    } else if fine_building_blocked || has_bits(cell, 1) || has_bits(cell, 128) || has_bits(cell, 64) {
        false
    } else if fine_road_blocked || has_bits(cell, 16) {
        is_ground_cover
    } else {
        !has_bits(cell, 4)
    }
}

/// No flora inside structure footprints, in water, or on intact roads
/// (ground cover excepted), nor on blocked slopes.
pub fn flora_allowed_on_cell(
    cell: WalkabilityFlags,
    is_ground_cover: bool,
    fine_water_blocked: bool,
    fine_building_blocked: bool,
    fine_road_blocked: bool,
) -> (r: bool)
    ensures
        r == flora_permitted(cell@, is_ground_cover, fine_water_blocked, fine_building_blocked, fine_road_blocked),
{
    if fine_water_blocked {
        return false;
    }
    if cell.contains_bits(WalkabilityFlags::BLOCKED_WATER) {
        return false;
    }
    if fine_building_blocked {
        return false;
    }
    if cell.is_structure() || cell.is_rubble() {
        return false;
    }
    if fine_road_blocked {
        return is_ground_cover;
    }
    if cell.contains_bits(WalkabilityFlags::ROAD) {
        return is_ground_cover;
    }
    if cell.contains_bits(WalkabilityFlags::BLOCKED_SLOPE) {
        return false;
    }
    true
}

/// Ground cover is never more restricted than taller flora: wherever taller
/// flora may grow, ground cover may too. Nothing grows on water.
pub proof fn lemma_ground_cover_least_restricted(cell: u32, water: bool, building: bool, road: bool)
    ensures
        flora_permitted(cell, false, water, building, road) ==> flora_permitted(cell, true, water, building, road),
        (water || has_bits(cell, 2)) ==> !flora_permitted(cell, true, water, building, road),
{
}

/// No flora grows inside a structure footprint (blocked structure or
/// indoor flags), on rubble, in water or on a blocked slope, nor where the
/// fine water or building grids block the spot, whatever kind of flora it
/// is and whatever the other grids say.
pub proof fn lemma_no_flora_in_footprints_rubble_or_water(
    cell: u32,
    is_ground_cover: bool,
    water: bool,
    building: bool,
    road: bool,
)
    ensures
        cell & 1 != 0 ==> !flora_permitted(cell, is_ground_cover, water, building, road),
        cell & 128 != 0 ==> !flora_permitted(cell, is_ground_cover, water, building, road),
        cell & 64 != 0 ==> !flora_permitted(cell, is_ground_cover, water, building, road),
        cell & 2 != 0 ==> !flora_permitted(cell, is_ground_cover, water, building, road),
        water || building ==> !flora_permitted(cell, is_ground_cover, water, building, road),
        cell & 4 != 0 && !is_ground_cover ==> !flora_permitted(cell, is_ground_cover, water, building, road),
{
    assert(cell & 1 != 0 ==> cell & 1 == 1) by (bit_vector);
    assert(cell & 128 != 0 ==> cell & 128 == 128) by (bit_vector);
    assert(cell & 64 != 0 ==> cell & 64 == 64) by (bit_vector);
    assert(cell & 2 != 0 ==> cell & 2 == 2) by (bit_vector);
    assert(cell & 4 != 0 ==> cell & 4 == 4) by (bit_vector);
    assert(cell & 16 != 0 ==> cell & 16 == 16) by (bit_vector);
}

/// On a road (by its flag or the fine road grid) outside any footprint,
/// rubble or water, only ground cover grows; on a cell with none of these
/// flags, nor a blocked slope, and no fine grid blocking it, every flora
/// grows, whatever walkable flags (dense vegetation, corruption) it carries.
pub proof fn lemma_flora_on_roads_and_open_ground(
    cell: u32,
    is_ground_cover: bool,
    water: bool,
    building: bool,
    road: bool,
)
    ensures
        !water && !building && cell & (1u32 | 2u32 | 64u32 | 128u32) == 0 && (road || cell & 16 != 0) ==> (
        flora_permitted(cell, is_ground_cover, water, building, road) == is_ground_cover),
        !water && !building && !road && cell & (1u32 | 2u32 | 4u32 | 16u32 | 64u32 | 128u32) == 0
            ==> flora_permitted(cell, is_ground_cover, water, building, road),
{
    assert(cell & (1u32 | 2u32 | 64u32 | 128u32) == 0 ==> (cell & 1 != 1 && cell & 2 != 2 && cell & 64 != 64 && cell
        & 128 != 128)) by (bit_vector);
    assert(cell & (1u32 | 2u32 | 4u32 | 16u32 | 64u32 | 128u32) == 0 ==> (cell & 1 != 1 && cell & 2 != 2 && cell & 4
        != 4 && cell & 16 != 16 && cell & 64 != 64 && cell & 128 != 128)) by (bit_vector);
    assert(cell & 16 != 0 ==> cell & 16 == 16) by (bit_vector);
}

} // verus!
