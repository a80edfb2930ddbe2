use life_grid::grid::Grid;

fn grid_with(width: usize, height: usize, alive: &[(usize, usize)]) -> Grid {
    let mut g = Grid::clear(width, height);
    for &(x, y) in alive {
        g.set_cell(x, y, true);
    }
    g
}

fn alive_cells(g: &Grid) -> Vec<(usize, usize)> {
    let mut cells = Vec::new();
    for y in 0..g.height() {
        for x in 0..g.width() {
            if g.get_cell(x, y) {
                cells.push((x, y));
            }
        }
    }
    cells
}

#[test]
fn step_all_dead_stays_dead() {
    let g = Grid::clear(5, 5);
    let n = g.step();
    for y in 0..5 {
        for x in 0..5 {
            assert!(!n.get_cell(x, y));
        }
    }
    assert!(g.equals(&n));
}

#[test]
fn birth_on_exactly_three_neighbors() {
    // A dead cell at (2, 0) above a horizontal line of three becomes alive.
    let g = grid_with(5, 5, &[(1, 1), (2, 1), (3, 1)]);
    assert!(!g.get_cell(2, 0));
    assert_eq!(g.alive_neighbors(2, 0), 3);
    let n = g.step();
    assert!(n.get_cell(2, 0));
}

#[test]
fn alive_cell_with_three_neighbors_survives() {
    // Each corner of a 2x2 block has exactly 3 alive neighbors and survives.
    let g = grid_with(5, 5, &[(1, 1), (2, 1), (1, 2), (2, 2)]);
    assert_eq!(g.alive_neighbors(1, 1), 3);
    let n = g.step();
    assert!(n.get_cell(1, 1));
}

#[test]
fn death_on_isolation() {
    // A lone cell has 0 alive neighbors and dies.
    let g = grid_with(5, 5, &[(2, 2)]);
    assert_eq!(g.alive_neighbors(2, 2), 0);
    let n = g.step();
    assert!(!n.get_cell(2, 2));
}

#[test]
fn death_on_overcrowding() {
    // The center of a plus shape has 4 alive neighbors and dies.
    let g = grid_with(7, 7, &[(3, 3), (2, 3), (4, 3), (3, 2), (3, 4)]);
    assert_eq!(g.alive_neighbors(3, 3), 4);
    let n = g.step();
    assert!(!n.get_cell(3, 3));
}

#[test]
fn death_on_two_neighbors_when_dead() {
    // A dead cell with exactly 2 alive neighbors stays dead.
    let g = grid_with(6, 6, &[(1, 1), (2, 1)]);
    assert_eq!(g.alive_neighbors(3, 1), 1);
    assert_eq!(g.alive_neighbors(1, 0), 2);
    let n = g.step();
    assert!(!n.get_cell(1, 0));
}

#[test]
fn wraparound_corner_counts() {
    // A cell alive at (0, 0) counts as a neighbor of the three far corners.
    let mut g = Grid::clear(4, 4);
    g.set_cell(0, 0, true);
    assert_eq!(g.alive_neighbors(3, 0), 1);
    assert_eq!(g.alive_neighbors(0, 3), 1);
    assert_eq!(g.alive_neighbors(3, 3), 1);
    // An interior cell two columns away sees nothing.
    assert_eq!(g.alive_neighbors(2, 0), 0);
}

#[test]
fn wraparound_single_cell_axis() {
    // On a 1x1 torus every one of the 8 neighbor offsets reaches the cell
    // itself, so a lone alive cell counts 8 neighbors and dies.
    let g = grid_with(1, 1, &[(0, 0)]);
    assert_eq!(g.alive_neighbors(0, 0), 8);
    let n = g.step();
    assert!(!n.get_cell(0, 0));
}

#[test]
fn block_is_still_life() {
    let g = grid_with(4, 4, &[(1, 1), (2, 1), (1, 2), (2, 2)]);
    let n = g.step();
    assert!(g.equals(&n));
}

#[test]
fn blinker_is_not_still() {
    let g = grid_with(4, 4, &[(1, 1), (2, 1), (3, 1)]);
    let n = g.step();
    assert!(!g.equals(&n));
}

#[test]
fn blinker_oscillates() {
    // A horizontal blinker turns vertical around the same center, then back.
    let g = grid_with(4, 4, &[(1, 1), (2, 1), (3, 1)]);
    let gen1 = g.step();
    assert_eq!(alive_cells(&gen1), vec![(2, 0), (2, 1), (2, 2)]);
    let gen2 = gen1.step();
    assert_eq!(alive_cells(&gen2), vec![(1, 1), (2, 1), (3, 1)]);
    assert!(g.equals(&gen2));
}

#[test]
fn next_state_matches_step() {
    let g = grid_with(4, 4, &[(1, 1), (2, 1), (3, 1)]);
    let n = g.step();
    for y in 0..4 {
        for x in 0..4 {
            assert_eq!(g.next_state(x, y), n.get_cell(x, y));
        }
    }
}

#[test]
fn next_generation_row_matches_step() {
    let g = grid_with(4, 4, &[(1, 1), (2, 1), (3, 1)]);
    let n = g.step();
    let row = g.next_generation_row(2);
    assert_eq!(row.len(), 4);
    for x in 0..4 {
        assert_eq!(row[x], n.get_cell(x, 2));
    }
}

#[test]
fn clear_twice_identical() {
    let a = Grid::clear(6, 4);
    let b = Grid::clear(6, 4);
    assert!(a.equals(&b));
    assert!(b.equals(&a));
}

#[test]
fn clear_dimensions() {
    let g = Grid::clear(7, 3);
    assert_eq!(g.width(), 7);
    assert_eq!(g.height(), 3);
    for y in 0..3 {
        for x in 0..7 {
            assert!(!g.get_cell(x, y));
        }
    }
}

#[test]
fn seed_density_zero_all_dead() {
    let g = Grid::seed_random(8, 8, 0);
    for y in 0..8 {
        for x in 0..8 {
            assert!(!g.get_cell(x, y));
        }
    }
}

#[test]
fn seed_density_hundred_all_alive() {
    let g = Grid::seed_random(8, 8, 100);
    for y in 0..8 {
        for x in 0..8 {
            assert!(g.get_cell(x, y));
        }
    }
}

#[test]
fn seed_dimensions() {
    let g = Grid::seed_random(9, 5, 50);
    assert_eq!(g.width(), 9);
    assert_eq!(g.height(), 5);
}

#[test]
fn set_cell_out_of_range_is_noop() {
    let mut g = grid_with(4, 4, &[(1, 1), (2, 2)]);
    let untouched = grid_with(4, 4, &[(1, 1), (2, 2)]);
    g.set_cell(4, 0, true);
    g.set_cell(0, 4, true);
    g.set_cell(100, 100, true);
    assert!(g.equals(&untouched));
}

#[test]
fn set_cell_in_range_sets_and_clears() {
    let mut g = Grid::clear(4, 4);
    g.set_cell(2, 3, true);
    assert!(g.get_cell(2, 3));
    assert!(!g.get_cell(3, 2));
    g.set_cell(2, 3, false);
    assert!(!g.get_cell(2, 3));
}

#[test]
fn equals_detects_cell_difference() {
    let a = grid_with(4, 4, &[(1, 1)]);
    let b = grid_with(4, 4, &[(1, 2)]);
    assert!(!a.equals(&b));
}

#[test]
fn equals_detects_dimension_difference() {
    let a = Grid::clear(4, 4);
    let b = Grid::clear(4, 5);
    let c = Grid::clear(5, 4);
    assert!(!a.equals(&b));
    assert!(!a.equals(&c));
}
