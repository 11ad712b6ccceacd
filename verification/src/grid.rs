//! The flag layer of the terrain grid: walkability and biome of every cell,
//! with the spawn, neighbour and census queries that read only that layer.

use vstd::prelude::*;

use crate::terrain::{has_bits, TerrainBiome, WalkabilityFlags, GRID_CELLS, GRID_RESOLUTION};

verus! {

/// Walkability and biome of one grid cell.
#[derive(Debug, Clone, Copy, PartialEq, Eq, Structural)]
pub struct CellFlags {
    pub walkability: WalkabilityFlags,
    pub biome: TerrainBiome,
}

/// Cell facts that the census of a grid can count.
#[derive(Debug, Clone, Copy, PartialEq, Eq, Structural)]
pub enum CellQuery {
    /// No blocking flag.
    Walkable,
    /// Water flag set.
    Water,
    /// Structure footprint (blocked structure or indoor).
    Structure,
    /// Road flag set.
    Road,
}

/// Whether a cell answers a census query.
pub open spec fn query_holds(q: CellQuery, c: CellFlags) -> bool {
    match q {
        CellQuery::Walkable => c.walkability@ & 15 == 0,
        CellQuery::Water => has_bits(c.walkability@, 2),
        CellQuery::Structure => has_bits(c.walkability@, 1) || has_bits(c.walkability@, 128),
        CellQuery::Road => has_bits(c.walkability@, 16),
    }
}

/// Row-major index of cell (`col`, `row`).
pub open spec fn cell_index(col: int, row: int) -> int {
    row * 128 + col
}

/// (col, row) of a row-major cell index.
pub open spec fn cell_of_index(idx: int) -> (usize, usize) {
    ((idx % 128) as usize, (idx / 128) as usize)
}

/// Whether an animal of a species may spawn on a cell of the given biome.
pub open spec fn spawnable(c: CellFlags, biome: TerrainBiome) -> bool {
    c.biome == biome && c.walkability@ & 15 == 0
}

/// Spawnable cells among the first `n` cells, in row-major order.
pub open spec fn spawn_cells_upto(cells: Seq<CellFlags>, biome: TerrainBiome, n: int) -> Seq<(usize, usize)>
    decreases n,
{
    if n <= 0 {
        Seq::empty()
    } else {
        let prev = spawn_cells_upto(cells, biome, n - 1);
        if spawnable(cells[n - 1], biome) {
            prev.push(cell_of_index(n - 1))
        } else {
            prev
        }
    }
}

/// Number of the first `n` cells that answer a query.
pub open spec fn count_upto(cells: Seq<CellFlags>, q: CellQuery, n: int) -> int
    decreases n,
{
    if n <= 0 {
        0
    } else {
        count_upto(cells, q, n - 1) + if query_holds(q, cells[n - 1]) {
            1int
        } else {
            0int
        }
    }
}

/// The k-th of the eight neighbour offsets (column, row), row by row.
pub open spec fn neighbor_offset(k: int) -> (int, int) {
    if k == 0 {
        (-1, -1)
    } else if k == 1 {
        (0, -1)
    } else if k == 2 {
        (1, -1)
    } else if k == 3 {
        (-1, 0)
    } else if k == 4 {
        (1, 0)
    } else if k == 5 {
        (-1, 1)
    } else if k == 6 {
        (0, 1)
    } else {
        (1, 1)
    }
}

/// Whether the k-th neighbour of (`col`, `row`) lies inside the grid and is
/// not blocked.
pub open spec fn neighbor_open(cells: Seq<CellFlags>, col: int, row: int, k: int) -> bool {
    let nc = col + neighbor_offset(k).0;
    let nr = row + neighbor_offset(k).1;
    &&& 0 <= nc < 128
    &&& 0 <= nr < 128
    &&& cells[cell_index(nc, nr)].walkability@ & 15 == 0
}

/// Open neighbours among the first `k` offsets: (col, row, diagonal).
pub open spec fn open_neighbors_upto(cells: Seq<CellFlags>, col: int, row: int, k: int) -> Seq<(usize, usize, bool)>
    decreases k,
{
    if k <= 0 {
        Seq::empty()
    } else {
        let prev = open_neighbors_upto(cells, col, row, k - 1);
        if neighbor_open(cells, col, row, k - 1) {
            let off = neighbor_offset(k - 1);
            prev.push(((col + off.0) as usize, (row + off.1) as usize, off.0 != 0 && off.1 != 0))
        } else {
            prev
        }
    }
}

/// The flag layer of a terrain grid: GRID_CELLS cells in row-major order.
pub struct NavGrid {
    cells: Vec<CellFlags>,
}

impl View for NavGrid {
    type V = Seq<CellFlags>;

    closed spec fn view(&self) -> Seq<CellFlags> {
        self.cells@
    }
}

impl NavGrid {
    #[verifier::type_invariant]
    spec fn full_size(self) -> bool {
        self.cells@.len() == GRID_CELLS
    }

    /// A grid whose every cell is `cell`.
    pub fn filled(cell: CellFlags) -> (g: Self)
        ensures
            g@ == Seq::new(GRID_CELLS as nat, |i: int| cell),
    {
        let mut cells: Vec<CellFlags> = Vec::new();
        let mut i: usize = 0;
        while i < GRID_CELLS
            invariant
                i <= GRID_CELLS,
                cells@ == Seq::new(i as nat, |j: int| cell),
            decreases GRID_CELLS - i,
        {
            cells.push(cell);
            i = i + 1;
        }
        NavGrid { cells }
    }

    /// Number of cells (always GRID_CELLS).
    pub fn len(&self) -> (n: usize)
        ensures
            n == self@.len(),
            n == GRID_CELLS,
    {
        proof {
            use_type_invariant(self);
        }
        self.cells.len()
    }

    /// The cell at a row-major index.
    pub fn cell_at(&self, idx: usize) -> (c: CellFlags)
        requires
            idx < GRID_CELLS,
        ensures
            c == self@[idx as int],
    {
        proof {
            use_type_invariant(self);
        }
        self.cells[idx]
    }

    /// The same grid with the cell at a row-major index replaced.
    pub fn with_cell(self, idx: usize, cell: CellFlags) -> (g: Self)
        requires
            idx < GRID_CELLS,
        ensures
            g@ == self@.update(idx as int, cell),
    {
        proof {
            use_type_invariant(&self);
        }
        let NavGrid { mut cells } = self;
        cells.set(idx, cell);
        NavGrid { cells }
    }

    /// The same grid with every cell given one biome, keeping its
    /// walkability.
    pub fn with_biome(self, biome: TerrainBiome) -> (g: Self)
        ensures
            g@.len() == self@.len(),
            forall|i: int|
                0 <= i < self@.len() ==> (#[trigger] g@[i]) == (CellFlags {
                    walkability: self@[i].walkability,
                    biome,
                }),
    {
        proof {
            use_type_invariant(&self);
        }
        let NavGrid { mut cells } = self;
        let n = cells.len();
        let ghost orig = cells@;
        let mut i: usize = 0;
        while i < n
            invariant
                n == cells@.len(),
                n == orig.len(),
                n == GRID_CELLS,
                i <= n,
                forall|j: int|
                    0 <= j < i ==> (#[trigger] cells@[j]) == (CellFlags {
                        walkability: orig[j].walkability,
                        biome,
                    }),
                forall|j: int| i <= j < n ==> (#[trigger] cells@[j]) == orig[j],
            decreases n - i,
        {
            let c = cells[i];
            cells.set(i, CellFlags { walkability: c.walkability, biome });
            i = i + 1;
        }
        NavGrid { cells }
    }

    /// Walkability flags at cell coordinates; cells outside the grid count as
    /// blocked structures.
    pub fn get_cell_walkability(&self, col: usize, row: usize) -> (f: WalkabilityFlags)
        ensures
            (col >= 128 || row >= 128) ==> f@ == 1,
            (col < 128 && row < 128) ==> f == self@[cell_index(col as int, row as int)].walkability,
    {
        proof {
            use_type_invariant(self);
        }
        if col >= GRID_RESOLUTION || row >= GRID_RESOLUTION {
            assert(1u32 & 255u32 == 1u32) by (bit_vector);
            return WalkabilityFlags::from_bits_truncate(WalkabilityFlags::BLOCKED_STRUCTURE);
        }
        self.cells[row * GRID_RESOLUTION + col].walkability
    }

    /// Biome at cell coordinates.
    pub fn get_cell_biome(&self, col: usize, row: usize) -> (b: TerrainBiome)
        requires
            col < 128,
            row < 128,
        ensures
            b == self@[cell_index(col as int, row as int)].biome,
    {
        proof {
            use_type_invariant(self);
        }
        self.cells[row * GRID_RESOLUTION + col].biome
    }

    /// Every unblocked cell of the given biome, as (col, row) in row-major
    /// order: the cells among which a spawn position is drawn.
    pub fn spawn_candidates(&self, biome: TerrainBiome) -> (res: Vec<(usize, usize)>)
        ensures
            res@ == spawn_cells_upto(self@, biome, GRID_CELLS as int),
            forall|k: int|
                0 <= k < res@.len() ==> {
                    &&& (#[trigger] res@[k]).0 < 128
                    &&& res@[k].1 < 128
                    &&& spawnable(self@[cell_index(res@[k].0 as int, res@[k].1 as int)], biome)
                },
            forall|i: int|
                0 <= i < GRID_CELLS && spawnable(#[trigger] self@[i], biome) ==> res@.contains(
                    cell_of_index(i),
                ),
    {
        proof {
            use_type_invariant(self);
        }
        let mut res: Vec<(usize, usize)> = Vec::new();
        let mut idx: usize = 0;
        while idx < GRID_CELLS
            invariant
                self@.len() == GRID_CELLS,
                idx <= GRID_CELLS,
                res@ == spawn_cells_upto(self@, biome, idx as int),
                forall|k: int|
                    0 <= k < res@.len() ==> {
                        &&& (#[trigger] res@[k]).0 < 128
                        &&& res@[k].1 < 128
                        &&& spawnable(self@[cell_index(res@[k].0 as int, res@[k].1 as int)], biome)
                    },
                forall|i: int|
                    0 <= i < idx && spawnable(#[trigger] self@[i], biome) ==> res@.contains(
                        cell_of_index(i),
                    ),
            decreases GRID_CELLS - idx,
        {
            let cell = self.cells[idx];
            let row = idx / GRID_RESOLUTION;
            let col = idx % GRID_RESOLUTION;
            if cell.biome == biome && !cell.walkability.is_blocked() {
                let ghost before = res@;
                res.push((col, row));
                proof {
                    assert(cell_index(col as int, row as int) == idx as int);
                    assert(res@[res@.len() - 1] == cell_of_index(idx as int));
                    assert forall|i: int|
                        0 <= i < idx + 1 && spawnable(#[trigger] self@[i], biome) implies res@.contains(
                        cell_of_index(i),
                    ) by {
                        if i < idx {
                            let k = choose|k: int| 0 <= k < before.len() && before[k] == cell_of_index(i);
                            assert(res@[k] == cell_of_index(i));
                        } else {
                            assert(res@[res@.len() - 1] == cell_of_index(i));
                        }
                    }
                }
            }
            idx = idx + 1;
        }
        res
    }

    /// Number of cells that answer a census query.
    pub fn count_cells(&self, q: CellQuery) -> (n: usize)
        ensures
            n == count_upto(self@, q, GRID_CELLS as int),
    {
        proof {
            use_type_invariant(self);
        }
        let mut n: usize = 0;
        let mut idx: usize = 0;
        while idx < GRID_CELLS
            invariant
                self@.len() == GRID_CELLS,
                idx <= GRID_CELLS,
                n == count_upto(self@, q, idx as int),
                n <= idx,
            decreases GRID_CELLS - idx,
        {
            let w = self.cells[idx].walkability;
            let holds = match q {
                CellQuery::Walkable => !w.is_blocked(),
                CellQuery::Water => w.contains_bits(WalkabilityFlags::BLOCKED_WATER),
                CellQuery::Structure => w.is_structure(),
                CellQuery::Road => w.contains_bits(WalkabilityFlags::ROAD),
            };
            if holds {
                n = n + 1;
            }
            idx = idx + 1;
        }
        n
    }

    /// The 8-connected neighbours of (`col`, `row`) that lie inside the grid
    /// and are not blocked, as (col, row, diagonal) in offset order.
    pub fn walkable_neighbors(&self, col: usize, row: usize) -> (res: Vec<(usize, usize, bool)>)
        requires
            col < 128,
            row < 128,
        ensures
            res@ == open_neighbors_upto(self@, col as int, row as int, 8),
            res@.len() <= 8,
            forall|k: int|
                0 <= k < res@.len() ==> {
                    let n = #[trigger] res@[k];
                    &&& n.0 < 128
                    &&& n.1 < 128
                    &&& self@[cell_index(n.0 as int, n.1 as int)].walkability@ & 15 == 0
                    &&& (n.0 as int - col as int) <= 1 && (col as int - n.0 as int) <= 1
                    &&& (n.1 as int - row as int) <= 1 && (row as int - n.1 as int) <= 1
                    &&& (n.0 != col || n.1 != row)
                    &&& n.2 == (n.0 != col && n.1 != row)
                },
    {
        proof {
            use_type_invariant(self);
        }
        let mut res: Vec<(usize, usize, bool)> = Vec::new();
        let mut k: usize = 0;
        while k < 8
            invariant
                self@.len() == GRID_CELLS,
                col < 128,
                row < 128,
                k <= 8,
                res@ == open_neighbors_upto(self@, col as int, row as int, k as int),
                res@.len() <= k,
                forall|j: int|
                    0 <= j < res@.len() ==> {
                        let n = #[trigger] res@[j];
                        &&& n.0 < 128
                        &&& n.1 < 128
                        &&& self@[cell_index(n.0 as int, n.1 as int)].walkability@ & 15 == 0
                        &&& (n.0 as int - col as int) <= 1 && (col as int - n.0 as int) <= 1
                        &&& (n.1 as int - row as int) <= 1 && (row as int - n.1 as int) <= 1
                        &&& (n.0 != col || n.1 != row)
                        &&& n.2 == (n.0 != col && n.1 != row)
                    },
            decreases 8 - k,
        {
            let (dc, dr) = neighbor_step(k);
            let nc = col as isize + dc;
            let nr = row as isize + dr;
            if nc >= 0 && nr >= 0 && nc < GRID_RESOLUTION as isize && nr < GRID_RESOLUTION as isize {
                let ncu = nc as usize;
                let nru = nr as usize;
                let w = self.cells[nru * GRID_RESOLUTION + ncu].walkability;
                if !w.is_blocked() {
                    res.push((ncu, nru, dc != 0 && dr != 0));
                }
            }
            k = k + 1;
        }
        res
    }
}

/// The k-th neighbour offset (column, row).
pub fn neighbor_step(k: usize) -> (r: (isize, isize))
    requires
        k < 8,
    ensures
        r.0 == neighbor_offset(k as int).0,
        r.1 == neighbor_offset(k as int).1,
{
    if k == 0 {
        (-1, -1)
    } else if k == 1 {
        (0, -1)
    } else if k == 2 {
        (1, -1)
    } else if k == 3 {
        (-1, 0)
    } else if k == 4 {
        (1, 0)
    } else if k == 5 {
        (-1, 1)
    } else if k == 6 {
        (0, 1)
    } else {
        (1, 1)
    }
}

/// The open neighbours found among the first `k` offsets stay among those
/// found with more offsets.
proof fn lemma_open_neighbor_kept(cells: Seq<CellFlags>, col: int, row: int, j: int, k: int)
    requires
        0 <= j < k,
        neighbor_open(cells, col, row, j),
    ensures
        open_neighbors_upto(cells, col, row, k).contains(
            (
                (col + neighbor_offset(j).0) as usize,
                (row + neighbor_offset(j).1) as usize,
                neighbor_offset(j).0 != 0 && neighbor_offset(j).1 != 0,
            ),
        ),
    decreases k,
{
    let e = (
        (col + neighbor_offset(j).0) as usize,
        (row + neighbor_offset(j).1) as usize,
        neighbor_offset(j).0 != 0 && neighbor_offset(j).1 != 0,
    );
    let s = open_neighbors_upto(cells, col, row, k);
    let prev = open_neighbors_upto(cells, col, row, k - 1);
    if j == k - 1 {
        assert(s[s.len() - 1] == e);
    } else {
        lemma_open_neighbor_kept(cells, col, row, j, k - 1);
        let m = choose|m: int| 0 <= m < prev.len() && prev[m] == e;
        assert(s[m] == e);
    }
}

/// Neighbour expansion misses no open neighbour: every cell one step away
/// from (`col`, `row`), diagonals included, that lies inside the grid and
/// carries no blocking flag is among the open neighbours, with its diagonal
/// mark, whatever other flags (road, dense vegetation, rubble, indoor) it
/// carries.
pub proof fn lemma_every_unblocked_neighbor_found(cells: Seq<CellFlags>, col: int, row: int, dc: int, dr: int)
    requires
        -1 <= dc <= 1,
        -1 <= dr <= 1,
        dc != 0 || dr != 0,
        0 <= col + dc < 128,
        0 <= row + dr < 128,
        cells[cell_index(col + dc, row + dr)].walkability@ & 15 == 0,
    ensures
        open_neighbors_upto(cells, col, row, 8).contains(
            ((col + dc) as usize, (row + dr) as usize, dc != 0 && dr != 0),
        ),
{
    let j: int = if dr == -1 {
        dc + 1
    } else if dr == 0 {
        if dc == -1 {
            3
        } else {
            4
        }
    } else {
        dc + 6
    };
    assert(neighbor_offset(j) == (dc, dr));
    lemma_open_neighbor_kept(cells, col, row, j, 8);
}

} // verus!
