use life_grid::grid::Grid;
use life_grid::rules::CELL_ONE;

#[test]
fn new_grid_is_all_dead() {
    let g: Grid = Grid::new(7, 5);
    assert_eq!(g.width, 7);
    assert_eq!(g.height, 5);
    for i in 0..7 {
        for j in 0..5 {
            assert_eq!(g.get(i, j), 0);
        }
    }
}

#[test]
fn set_and_toggle_roundtrip() {
    let mut g: Grid = Grid::new(4, 4);
    g.set(1, 2, 700);
    assert_eq!(g.get(1, 2), 700);
    g.toggle(1, 2);
    assert_eq!(g.get(1, 2), 300);
    g.toggle(1, 2);
    assert_eq!(g.get(1, 2), 700);
    // The other cells are untouched.
    assert_eq!(g.get(0, 0), 0);
    assert_eq!(g.get(3, 3), 0);
}

#[test]
fn from_cells_accepts_exact_fit() {
    let g: Grid = Grid::from_cells(2, 3, vec![0, 100, 200, 300, 400, CELL_ONE]).unwrap();
    // Flat layout: cell (i, j) at i * height + j.
    assert_eq!(g.get(0, 0), 0);
    assert_eq!(g.get(0, 2), 200);
    assert_eq!(g.get(1, 0), 300);
    assert_eq!(g.get(1, 2), CELL_ONE);
}

#[test]
fn from_cells_rejects_wrong_length() {
    assert!(Grid::from_cells(2, 2, vec![0, 0, 0]).is_none());
    assert!(Grid::from_cells(2, 2, vec![0, 0, 0, 0, 0]).is_none());
}

#[test]
fn from_cells_rejects_zero_or_huge_dimensions() {
    assert!(Grid::from_cells(0, 1, vec![]).is_none());
    assert!(Grid::from_cells(1, 0, vec![]).is_none());
    assert!(Grid::from_cells(4097, 1, vec![0; 4097]).is_none());
    assert!(Grid::from_cells(1, 4097, vec![0; 4097]).is_none());
}

#[test]
fn from_cells_rejects_value_above_full() {
    assert!(Grid::from_cells(1, 2, vec![0, CELL_ONE + 1]).is_none());
    assert!(Grid::from_cells(1, 2, vec![0, CELL_ONE]).is_some());
}

#[test]
fn seeded_grid_follows_draws_and_threshold() {
    let draws: Vec<u32> = vec![0, 5, 10, 99];
    let g: Grid = Grid::seeded(2, 2, &draws, 10);
    assert_eq!(g.get(0, 0), CELL_ONE);
    assert_eq!(g.get(0, 1), CELL_ONE);
    assert_eq!(g.get(1, 0), 0);
    assert_eq!(g.get(1, 1), 0);
}

#[test]
fn seeded_with_zero_threshold_is_all_dead() {
    let draws: Vec<u32> = vec![0, 1, 2, 3, 4, 5];
    let g: Grid = Grid::seeded(3, 2, &draws, 0);
    for i in 0..3 {
        for j in 0..2 {
            assert_eq!(g.get(i, j), 0);
        }
    }
}
