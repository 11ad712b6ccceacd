//! The search-independent parts of grid pathfinding: the search budget and
//! the reconstruction of a path from the predecessor table of a search.

use vstd::prelude::*;

use crate::grid::cell_of_index;
use crate::terrain::GRID_RESOLUTION;

verus! {

/// Maximum number of cells to explore before a search gives up.
pub const MAX_SEARCH_ITERATIONS: usize = 8000;

/// Whether following predecessors from `cur` reaches `start`, or a cell
/// without predecessor, within `n` steps, reading only entries inside the
/// table.
pub open spec fn walk_stops_within(came_from: Seq<Option<usize>>, cur: int, start: int, n: nat) -> bool
    decreases n,
{
    if cur == start {
        true
    } else if !(0 <= cur < came_from.len()) {
        false
    } else {
        match came_from[cur] {
            None => true,
            Some(prev) => n > 0 && walk_stops_within(came_from, prev as int, start, (n - 1) as nat),
        }
    }
}

/// The cells visited when following predecessors from `cur` (inclusive)
/// until `start` (exclusive) or a cell without predecessor, goal first.
pub open spec fn walked_cells(came_from: Seq<Option<usize>>, cur: int, start: int, n: nat) -> Seq<(usize, usize)>
    decreases n,
{
    if cur == start || !(0 <= cur < came_from.len()) {
        Seq::empty()
    } else {
        match came_from[cur] {
            None => seq![cell_of_index(cur)],
            Some(prev) => if n == 0 {
                seq![cell_of_index(cur)]
            } else {
                seq![cell_of_index(cur)] + walked_cells(came_from, prev as int, start, (n - 1) as nat)
            },
        }
    }
}

/// The path from just after `start` to `goal`, as (col, row) cells.
pub open spec fn trail(came_from: Seq<Option<usize>>, goal: int, start: int) -> Seq<(usize, usize)> {
    walked_cells(came_from, goal, start, came_from.len()).reverse()
}

/// Reconstructs the cell path of a search from its predecessor table: the
/// cells from the first step after `start_idx` up to `goal_idx`, as
/// (col, row) pairs. The table must lead from the goal back to the start (or
/// to a cell without predecessor) without a cycle.
pub fn reconstruct_path(came_from: &[Option<usize>], goal_idx: usize, start_idx: usize) -> (path: Vec<(usize, usize)>)
    requires
        walk_stops_within(came_from@, goal_idx as int, start_idx as int, came_from@.len()),
    ensures
        path@ == trail(came_from@, goal_idx as int, start_idx as int),
        goal_idx != start_idx ==> path@.len() >= 1 && path@.last() == cell_of_index(goal_idx as int),
        goal_idx == start_idx ==> path@.len() == 0,
{
    let ghost full = walked_cells(came_from@, goal_idx as int, start_idx as int, came_from@.len());
    let ghost mut fuel: nat = came_from@.len();
    let mut rev: Vec<(usize, usize)> = Vec::new();
    let mut current = goal_idx;
    proof {
        if goal_idx != start_idx {
            reveal_with_fuel(walked_cells, 2);
            assert(full.len() >= 1 && full[0] == cell_of_index(goal_idx as int));
        }
    }
    while current != start_idx
        invariant_except_break
            walk_stops_within(came_from@, current as int, start_idx as int, fuel),
            full == rev@ + walked_cells(came_from@, current as int, start_idx as int, fuel),
        ensures
            full == rev@,
        decreases fuel,
    {
        let row = current / GRID_RESOLUTION;
        let col = current % GRID_RESOLUTION;
        let ghost before = rev@;
        rev.push((col, row));
        assert((col, row) == cell_of_index(current as int));
        match came_from[current] {
            Some(prev) => {
                proof {
                    assert(full == before + (seq![cell_of_index(current as int)] + walked_cells(
                        came_from@,
                        prev as int,
                        start_idx as int,
                        (fuel - 1) as nat,
                    )));
                    assert(full == rev@ + walked_cells(
                        came_from@,
                        prev as int,
                        start_idx as int,
                        (fuel - 1) as nat,
                    ));
                    fuel = (fuel - 1) as nat;
                }
                current = prev;
            },
            None => {
                assert(full == rev@);
                break ;
            },
        }
    }
    proof {
        if current == start_idx {
            assert(walked_cells(came_from@, current as int, start_idx as int, fuel) =~= Seq::empty());
            assert(full =~= rev@);
        }
    }
    let ghost reversed = rev@;
    let mut path: Vec<(usize, usize)> = Vec::new();
    while rev.len() > 0
        invariant
            rev@ == reversed.subrange(0, rev@.len() as int),
            path@ == reversed.subrange(rev@.len() as int, reversed.len() as int).reverse(),
            rev@.len() <= reversed.len(),
        decreases rev@.len(),
    {
        let ghost old_len = rev@.len();
        let x = rev.pop().unwrap();
        path.push(x);
        proof {
            assert(x == reversed[old_len - 1]);
            assert(path@ =~= reversed.subrange(rev@.len() as int, reversed.len() as int).reverse());
        }
    }
    proof {
        assert(reversed.subrange(0, reversed.len() as int) =~= reversed);
        assert(path@ =~= full.reverse());
        if goal_idx != start_idx {
            assert(path@.last() == full[0]);
        } else {
            reveal_with_fuel(walked_cells, 1);
        }
    }
    path
}

} // verus!
