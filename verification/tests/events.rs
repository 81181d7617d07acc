use life_grid::grid::Grid;
use life_grid::rules::CELL_ONE;
use life_grid::sim::Button;
use life_grid::sim::Event;
use life_grid::sim::SimState;

fn fresh_sim() -> SimState {
    // A 10x10 grid shown in a 100x100 pixel viewport: each cell covers a
    // 10x10 pixel square.
    SimState::new(Grid::new(10, 10), 100, 100)
}

#[test]
fn toggle_paints_dead_cell_alive_and_back() {
    let mut s: SimState = fresh_sim();
    s.press(Button::Primary);
    // 35.0, 45.0 pixels (in thousandths) map to cell (3, 4).
    s.pointer_move(35_000, 45_000);
    assert_eq!(s.current().get(3, 4), CELL_ONE);
    // A second toggle at the same spot restores the dead cell.
    s.pointer_move(35_000, 45_000);
    assert_eq!(s.current().get(3, 4), 0);
}

#[test]
fn pointer_move_without_paint_changes_nothing() {
    let mut s: SimState = fresh_sim();
    s.pointer_move(35_000, 45_000);
    assert_eq!(s.current().get(3, 4), 0);
    // A non-primary press does not start painting either.
    s.press(Button::Secondary);
    s.pointer_move(35_000, 45_000);
    assert_eq!(s.current().get(3, 4), 0);
}

#[test]
fn release_of_primary_stops_painting() {
    let mut s: SimState = fresh_sim();
    s.press(Button::Primary);
    // Releasing a different button keeps painting on.
    s.release(Button::Secondary);
    s.pointer_move(5_000, 5_000);
    assert_eq!(s.current().get(0, 0), CELL_ONE);
    s.release(Button::Primary);
    s.pointer_move(5_000, 5_000);
    assert_eq!(s.current().get(0, 0), CELL_ONE);
}

#[test]
fn out_of_bounds_pointer_is_ignored() {
    let mut s: SimState = fresh_sim();
    s.press(Button::Primary);
    // 150 pixels across a 100 pixel viewport maps to column 15 >= 10.
    s.pointer_move(150_000, 50_000);
    // 150 pixels down maps to row 15 >= 10.
    s.pointer_move(50_000, 150_000);
    // A pointer left of or above the window reports negative coordinates.
    s.pointer_move(-5_000, 50_000);
    s.pointer_move(50_000, -1);
    for i in 0..10 {
        for j in 0..10 {
            assert_eq!(s.current().get(i, j), 0);
        }
    }
}

#[test]
fn stale_viewport_maps_out_of_bounds_silently() {
    let mut s: SimState = fresh_sim();
    s.press(Button::Primary);
    // After shrinking the window, a pointer position remembered from the
    // old size can map past the grid; it must be dropped, not wrapped.
    s.resize(50, 50);
    s.pointer_move(75_000, 10_000);
    for i in 0..10 {
        for j in 0..10 {
            assert_eq!(s.current().get(i, j), 0);
        }
    }
    // In the new viewport the same position would be out of range, but a
    // position inside it still paints: 25.0 of 50 pixels is cell 5.
    s.pointer_move(25_000, 25_000);
    assert_eq!(s.current().get(5, 5), CELL_ONE);
}

#[test]
fn zero_sized_viewport_ignores_pointer() {
    let mut s: SimState = fresh_sim();
    s.press(Button::Primary);
    s.resize(0, 100);
    s.pointer_move(5_000, 5_000);
    s.resize(100, 0);
    s.pointer_move(5_000, 5_000);
    for i in 0..10 {
        for j in 0..10 {
            assert_eq!(s.current().get(i, j), 0);
        }
    }
}

#[test]
fn advance_replaces_current_with_stepped_grid() {
    // Same pattern as the stepper test, driven through the double buffer:
    // the new current grid is the step of the pre-advance current grid.
    let mut cells: Vec<u32> = vec![0; 9];
    cells[1] = CELL_ONE;
    cells[4] = CELL_ONE;
    cells[7] = CELL_ONE;
    let g: Grid = Grid::from_cells(3, 3, cells).unwrap();
    let mut s: SimState = SimState::new(g, 90, 90);
    s.advance();
    for i in 0..3 {
        for j in 0..3 {
            if j == 1 {
                assert_eq!(s.current().get(i, j), CELL_ONE);
            } else {
                assert_eq!(s.current().get(i, j), 100);
            }
        }
    }
    // A second advance steps the new generation again, through the other
    // buffer: alive cells see 2.0 + 2 * 0.1 = 2.2, still sustained; the
    // dead-ish cells (0.1) see 2.0 + 0.1 = 2.1 + their column partners.
    s.advance();
    for i in 0..3 {
        assert_eq!(s.current().get(i, 1), CELL_ONE);
    }
}

#[test]
fn handle_event_dispatches_each_variant() {
    let mut s: SimState = fresh_sim();
    s.handle_event(Event::Resize(200, 150));
    assert_eq!(s.window_width, 200);
    assert_eq!(s.window_height, 150);
    s.handle_event(Event::Render(120, 80));
    assert_eq!(s.window_width, 120);
    assert_eq!(s.window_height, 80);
    assert!(!s.paint);
    s.handle_event(Event::Press(Button::Primary));
    assert!(s.paint);
    // 60.0 of 120 pixels is column 5; 40.0 of 80 pixels is row 5.
    s.handle_event(Event::PointerMove(60_000, 40_000));
    assert_eq!(s.current().get(5, 5), CELL_ONE);
    s.handle_event(Event::Release(Button::Primary));
    assert!(!s.paint);
    // An update tick decays the lone painted cell and leaves its dead
    // neighbours dead (neighbour sums of 1.0 are below the window).
    s.handle_event(Event::Update);
    assert_eq!(s.current().get(5, 5), 980);
    assert_eq!(s.current().get(4, 5), 0);
}
