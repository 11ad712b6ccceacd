use wildlife_sim::pathfinding::{reconstruct_path, MAX_SEARCH_ITERATIONS};

#[test]
fn reconstructs_cells_from_start_to_goal() {
    let mut came_from: Vec<Option<usize>> = vec![None; 128 * 128];
    // start = 0 -> 129 (1,1) -> 258 (2,2) -> 259 (3,2)
    came_from[129] = Some(0);
    came_from[258] = Some(129);
    came_from[259] = Some(258);
    assert_eq!(reconstruct_path(&came_from, 259, 0), vec![(1, 1), (2, 2), (3, 2)]);
    assert_eq!(MAX_SEARCH_ITERATIONS, 8000);
}

#[test]
fn goal_equal_to_start_gives_empty_path() {
    let came_from: Vec<Option<usize>> = vec![None; 4];
    assert!(reconstruct_path(&came_from, 2, 2).is_empty());
}

#[test]
fn missing_predecessor_stops_the_walk() {
    let mut came_from: Vec<Option<usize>> = vec![None; 300];
    came_from[200] = Some(130);
    // 130 has no predecessor: the path starts there.
    assert_eq!(reconstruct_path(&came_from, 200, 0), vec![(2, 1), (72, 1)]);
}
