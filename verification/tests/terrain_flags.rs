use wildlife_sim::grid::{CellFlags, CellQuery, NavGrid};
use wildlife_sim::terrain::{
    flora_allowed_on_cell, parse_biome, terrain_biome_to_zone_biome, TerrainBiome, WalkabilityFlags, GRID_CELLS,
    GRID_RESOLUTION,
};
use wildlife_sim::types::BiomeType;

fn flags(bits: u32) -> WalkabilityFlags {
    WalkabilityFlags::from_bits_truncate(bits)
}

#[test]
fn blocking_flags() {
    assert!(!flags(0).is_blocked());
    assert!(flags(WalkabilityFlags::BLOCKED_STRUCTURE).is_blocked());
    assert!(flags(WalkabilityFlags::BLOCKED_WATER).is_blocked());
    assert!(flags(WalkabilityFlags::BLOCKED_SLOPE).is_blocked());
    assert!(flags(WalkabilityFlags::BLOCKED_CORRUPTION).is_blocked());
    assert!(!flags(WalkabilityFlags::ROAD | WalkabilityFlags::DENSE_VEGETATION | WalkabilityFlags::RUBBLE | WalkabilityFlags::INDOOR).is_blocked());
    assert_eq!(WalkabilityFlags::BLOCK_MASK, 15);
}

#[test]
fn structure_rubble_shelter() {
    assert!(flags(WalkabilityFlags::BLOCKED_STRUCTURE).is_structure());
    assert!(flags(WalkabilityFlags::INDOOR).is_structure());
    assert!(!flags(WalkabilityFlags::RUBBLE).is_structure());
    assert!(flags(WalkabilityFlags::RUBBLE).is_rubble());
    assert!(flags(WalkabilityFlags::RUBBLE).is_shelter());
    assert!(!flags(WalkabilityFlags::RUBBLE | WalkabilityFlags::BLOCKED_STRUCTURE).is_shelter());
    assert!(flags(WalkabilityFlags::RUBBLE | WalkabilityFlags::BLOCKED_STRUCTURE).is_rubble());
    assert!(!flags(0).is_shelter());
}

#[test]
fn flag_set_operations() {
    assert_eq!(flags(0x1ff).bits(), 0xff);
    let mut f = WalkabilityFlags::empty();
    assert_eq!(f.bits(), 0);
    f.insert(flags(WalkabilityFlags::BLOCKED_WATER));
    assert!(f.contains(flags(WalkabilityFlags::BLOCKED_WATER)));
    assert!(f.contains_bits(WalkabilityFlags::WALKABLE));
    assert!(!f.contains_bits(WalkabilityFlags::ROAD));
    let g = f.union(flags(WalkabilityFlags::ROAD));
    assert_eq!(g.bits(), 18);
    // A blocked cell stays blocked whatever is added.
    assert!(g.is_blocked());
}

#[test]
fn biome_names() {
    for name in ["FOREST", "MIXED_FOREST", "BOREAL_FOREST", "TEMPERATE_FOREST"] {
        assert_eq!(parse_biome(name), TerrainBiome::Forest);
    }
    assert_eq!(parse_biome("SCRUB"), TerrainBiome::Scrub);
    assert_eq!(parse_biome("GRASSLAND"), TerrainBiome::Grassland);
    assert_eq!(parse_biome("MARSH"), TerrainBiome::Marsh);
    assert_eq!(parse_biome("DESERT"), TerrainBiome::Desert);
    assert_eq!(parse_biome("ROCKY"), TerrainBiome::Rocky);
    assert_eq!(parse_biome("TUNDRA"), TerrainBiome::Tundra);
    assert_eq!(parse_biome("RUINS"), TerrainBiome::Ruins);
    assert_eq!(parse_biome("WATER"), TerrainBiome::Water);
    assert_eq!(parse_biome("COASTAL"), TerrainBiome::Coastal);
    assert_eq!(parse_biome("FARMLAND"), TerrainBiome::Farmland);
    assert_eq!(parse_biome("forest"), TerrainBiome::Grassland);
    assert_eq!(parse_biome(""), TerrainBiome::Grassland);
    assert_eq!(parse_biome("VOLCANO"), TerrainBiome::Grassland);
}

#[test]
fn zone_biomes() {
    assert_eq!(terrain_biome_to_zone_biome(TerrainBiome::Forest), BiomeType::Forest);
    assert_eq!(terrain_biome_to_zone_biome(TerrainBiome::Scrub), BiomeType::Grassland);
    assert_eq!(terrain_biome_to_zone_biome(TerrainBiome::Marsh), BiomeType::Swamp);
    assert_eq!(terrain_biome_to_zone_biome(TerrainBiome::Rocky), BiomeType::Mountain);
    assert_eq!(terrain_biome_to_zone_biome(TerrainBiome::Ruins), BiomeType::Urban);
    assert_eq!(terrain_biome_to_zone_biome(TerrainBiome::Water), BiomeType::Freshwater);
    assert_eq!(terrain_biome_to_zone_biome(TerrainBiome::Farmland), BiomeType::Grassland);
}

#[test]
fn flora_rules() {
    let open = flags(0);
    assert!(flora_allowed_on_cell(open, false, false, false, false));
    // Water, from either source, forbids all flora.
    assert!(!flora_allowed_on_cell(flags(WalkabilityFlags::BLOCKED_WATER), true, false, false, false));
    assert!(!flora_allowed_on_cell(open, true, true, false, false));
    // Structures and rubble.
    assert!(!flora_allowed_on_cell(flags(WalkabilityFlags::INDOOR), true, false, false, false));
    assert!(!flora_allowed_on_cell(flags(WalkabilityFlags::RUBBLE), true, false, false, false));
    assert!(!flora_allowed_on_cell(open, true, false, true, false));
    // Roads: only ground cover.
    assert!(flora_allowed_on_cell(flags(WalkabilityFlags::ROAD), true, false, false, false));
    assert!(!flora_allowed_on_cell(flags(WalkabilityFlags::ROAD), false, false, false, false));
    assert!(flora_allowed_on_cell(open, true, false, false, true));
    assert!(!flora_allowed_on_cell(open, false, false, false, true));
    // Blocked slopes.
    assert!(!flora_allowed_on_cell(flags(WalkabilityFlags::BLOCKED_SLOPE), true, false, false, false));
    // A road on a blocked slope still lets ground cover grow.
    assert!(flora_allowed_on_cell(flags(WalkabilityFlags::ROAD | WalkabilityFlags::BLOCKED_SLOPE), true, false, false, false));
}

fn grass() -> CellFlags {
    CellFlags { walkability: flags(0), biome: TerrainBiome::Grassland }
}

#[test]
fn nav_grid_queries() {
    let mut g = NavGrid::filled(grass());
    assert_eq!(g.len(), GRID_CELLS);
    g = g.with_cell(5 * GRID_RESOLUTION + 3, CellFlags { walkability: flags(0), biome: TerrainBiome::Forest });
    g = g.with_cell(7, CellFlags { walkability: flags(WalkabilityFlags::BLOCKED_WATER), biome: TerrainBiome::Forest });
    assert_eq!(g.spawn_candidates(TerrainBiome::Forest), vec![(3, 5)]);
    assert!(g.spawn_candidates(TerrainBiome::Desert).is_empty());
    assert_eq!(g.spawn_candidates(TerrainBiome::Grassland).len(), GRID_CELLS - 2);
    assert_eq!(g.count_cells(CellQuery::Water), 1);
    assert_eq!(g.count_cells(CellQuery::Walkable), GRID_CELLS - 1);
    assert_eq!(g.count_cells(CellQuery::Road), 0);
    assert_eq!(g.get_cell_walkability(7, 0).bits(), WalkabilityFlags::BLOCKED_WATER);
    assert_eq!(g.get_cell_walkability(128, 0).bits(), WalkabilityFlags::BLOCKED_STRUCTURE);
    assert_eq!(g.get_cell_walkability(0, 128).bits(), WalkabilityFlags::BLOCKED_STRUCTURE);
    assert_eq!(g.get_cell_biome(3, 5), TerrainBiome::Forest);
    let g = g.with_biome(TerrainBiome::Tundra);
    assert_eq!(g.get_cell_biome(3, 5), TerrainBiome::Tundra);
    assert_eq!(g.get_cell_walkability(7, 0).bits(), WalkabilityFlags::BLOCKED_WATER);
}

#[test]
fn nav_grid_neighbors() {
    let g = NavGrid::filled(grass());
    assert_eq!(
        g.walkable_neighbors(0, 0),
        vec![(1, 0, false), (0, 1, false), (1, 1, true)]
    );
    assert_eq!(g.walkable_neighbors(5, 5).len(), 8);
    assert_eq!(g.walkable_neighbors(127, 127).len(), 3);
    let g = g.with_cell(4 * GRID_RESOLUTION + 4, CellFlags { walkability: flags(WalkabilityFlags::BLOCKED_STRUCTURE), biome: TerrainBiome::Ruins });
    let n = g.walkable_neighbors(5, 5);
    assert_eq!(n.len(), 7);
    assert_eq!(n[0], (5, 4, false));
}
