use gpu_life::grid::Grid;

fn grid_with(width: usize, height: usize, live: &[(usize, usize)]) -> Grid {
    let mut g = Grid::new(width, height).unwrap();
    for &(x, y) in live {
        g.set(x, y, true);
    }
    g
}

fn live_cells(g: &Grid) -> Vec<(usize, usize)> {
    let mut out = Vec::new();
    for y in 0..g.height() {
        for x in 0..g.width() {
            if g.get(x, y) {
                out.push((x, y));
            }
        }
    }
    out
}

#[test]
fn new_grid_is_dead() {
    let g = Grid::new(3, 2).unwrap();
    assert_eq!(g.width(), 3);
    assert_eq!(g.height(), 2);
    assert!(live_cells(&g).is_empty());
}

#[test]
fn new_rejects_empty_or_oversized() {
    assert!(Grid::new(0, 5).is_none());
    assert!(Grid::new(5, 0).is_none());
    assert!(Grid::new(usize::MAX, 2).is_none());
}

#[test]
fn set_and_get_one_cell() {
    let mut g = Grid::new(4, 4).unwrap();
    g.set(2, 1, true);
    assert!(g.get(2, 1));
    assert!(!g.get(1, 2));
    g.set(2, 1, false);
    assert!(!g.get(2, 1));
}

#[test]
fn sample_clamps_beyond_each_edge() {
    let g = grid_with(3, 3, &[(0, 1), (2, 2), (1, 0)]);
    assert!(g.sample(-1, 1));
    assert!(g.sample(-5, 1));
    assert!(g.sample(3, 2));
    assert!(g.sample(1, -1));
    assert!(!g.sample(1, 3));
    assert!(g.sample(3, 3));
    assert!(!g.sample(-1, -1));
}

#[test]
fn blinker_oscillates() {
    let g = grid_with(10, 10, &[(4, 5), (5, 5), (6, 5)]);
    let g1 = g.step();
    assert_eq!(live_cells(&g1), vec![(5, 4), (5, 5), (5, 6)]);
    let g2 = g1.step();
    assert_eq!(live_cells(&g2), vec![(4, 5), (5, 5), (6, 5)]);
}

#[test]
fn corner_pattern_uses_clamped_border() {
    // With wraparound all four cells of the corner square would be live.
    let g = grid_with(10, 10, &[(0, 0), (1, 0), (0, 1)]);
    assert_eq!(live_cells(&g.step()), vec![(1, 1)]);
}

#[test]
fn far_corner_pattern_uses_clamped_border() {
    let g = grid_with(10, 10, &[(8, 9), (9, 9), (9, 8)]);
    assert_eq!(live_cells(&g.step()), vec![(8, 8)]);
}

#[test]
fn next_cell_birth_and_survival() {
    let g = grid_with(5, 5, &[(1, 1), (2, 1), (3, 1)]);
    assert!(g.next_cell(2, 0));
    assert!(g.next_cell(2, 1));
    assert!(!g.next_cell(1, 1));
    assert!(!g.next_cell(0, 4));
}

#[test]
fn blinker_evolves_alike_at_two_resolutions() {
    let small = grid_with(64, 64, &[(31, 32), (32, 32), (33, 32)]);
    let large = grid_with(256, 256, &[(127, 128), (128, 128), (129, 128)]);
    assert_eq!(live_cells(&small.step()), vec![(32, 31), (32, 32), (32, 33)]);
    assert_eq!(live_cells(&large.step()), vec![(128, 127), (128, 128), (128, 129)]);
}

#[test]
fn single_cell_grid_dies() {
    let g = grid_with(1, 1, &[(0, 0)]);
    // The lone cell reads itself through all eight clamped neighbours.
    assert!(g.step().get(0, 0) == false);
}
