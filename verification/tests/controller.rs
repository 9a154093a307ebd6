use tetris_core::clock::{GameClock, SOFT_DROP_PERIOD_MS};
use tetris_core::game::{Game, TickInput, TickOutcome, is_valid};
use tetris_core::grid::Grid;
use tetris_core::heap::{Heap, HeapCell};
use tetris_core::piece::{CellState, Piece};
use tetris_core::pos::Pos;
use tetris_core::shape::{PieceKind, Rgb, kind_color};

fn no_input() -> TickInput {
    TickInput { left: false, right: false, down: false, rotate_cw: false, rotate_ccw: false }
}

fn down() -> TickInput {
    TickInput { down: true, ..no_input() }
}

fn rotate_cw() -> TickInput {
    TickInput { rotate_cw: true, ..no_input() }
}

fn positions_of(piece: &Piece) -> [(i32, i32); 4] {
    let mut out = [(0, 0); 4];
    for i in 0..4 {
        out[i] = (piece.cells[i].pos.x, piece.cells[i].pos.y);
    }
    out
}

fn heap_positions(heap: &Heap) -> Vec<(i32, i32)> {
    heap.cells.iter().map(|c| (c.pos.x, c.pos.y)).collect()
}

/// A T piece in orientation 0 with its bounding square anchored at (ax, ay).
fn tee_at(ax: i32, ay: i32) -> Piece {
    let cell = |ix: i32, iy: i32| CellState {
        index: Pos { x: ix, y: iy },
        pos: Pos { x: ax + ix, y: ay + iy },
    };
    Piece { kind: PieceKind::T, cells: [cell(0, 1), cell(1, 1), cell(2, 1), cell(1, 2)] }
}

fn game_with(heap_cells: Vec<(i32, i32)>, piece: Piece) -> Game {
    let color = kind_color(PieceKind::S);
    Game {
        grid: Grid::new(10, 22),
        heap: Heap {
            cells: heap_cells
                .into_iter()
                .map(|(x, y)| HeapCell { pos: Pos { x, y }, color })
                .collect(),
        },
        piece,
        clock: GameClock::new(SOFT_DROP_PERIOD_MS),
    }
}

#[test]
fn soft_drop_moves_one_row_down() {
    let mut game = Game::new(Grid::new(10, 22), PieceKind::O);
    let outcome = game.tick_with(down(), 0, PieceKind::I);
    assert_eq!(outcome, TickOutcome::Moved);
    assert_eq!(positions_of(&game.piece), [(4, 18), (4, 19), (5, 18), (5, 19)]);
    assert_eq!(game.heap.cells.len(), 0);
}

#[test]
fn square_piece_drops_to_the_floor_and_locks() {
    // spawn an O piece on an empty 10 x 22 grid and soft-drop until it fails
    let mut game = Game::new(Grid::new(10, 22), PieceKind::O);
    let mut locked = 0;
    let mut ticks = 0;
    while locked == 0 {
        ticks += 1;
        assert!(ticks < 100, "the piece never locked");
        if game.tick_with(down(), 0, PieceKind::T) == TickOutcome::Locked {
            locked = ticks;
        }
    }
    // 19 drops reach the floor; the 20th fails and locks
    assert_eq!(locked, 20);
    // the four cells sit in the heap at their last valid positions
    assert_eq!(heap_positions(&game.heap), vec![(4, 0), (4, 1), (5, 0), (5, 1)]);
    for cell in game.heap.cells.iter() {
        assert_eq!(cell.color, Rgb { red: 700, green: 700, blue: 0 });
    }
    // and a fresh piece of the injected kind stands at the spawn offset
    assert_eq!(game.piece.kind, PieceKind::T);
    assert_eq!(positions_of(&game.piece), [(3, 20), (4, 20), (5, 20), (4, 21)]);
}

#[test]
fn walled_tee_rotation_kicks_one_column_right() {
    // T in orientation 0 against the left wall, heap below at row 5;
    // the in-place rotation lands on (1, 5) and fails, the first kick (1, 0)
    // frees it and the whole piece moves one column right
    let mut game = game_with(vec![(0, 5), (1, 5)], tee_at(0, 5));
    assert_eq!(positions_of(&game.piece), [(0, 6), (1, 6), (2, 6), (1, 7)]);
    let outcome = game.tick_with(rotate_cw(), 0, PieceKind::I);
    assert_eq!(outcome, TickOutcome::Moved);
    assert_eq!(positions_of(&game.piece), [(2, 7), (2, 6), (2, 5), (3, 6)]);
    assert_eq!(game.heap.cells.len(), 2);
}

#[test]
fn kick_ladder_takes_the_first_valid_offset() {
    // block column 2 at row 5 as well: the in-place rotation and the (1, 0)
    // kick both land on a settled cell, the (2, 0) kick is the first free one
    let mut game = game_with(vec![(1, 5), (2, 5)], tee_at(0, 5));
    let outcome = game.tick_with(rotate_cw(), 0, PieceKind::I);
    assert_eq!(outcome, TickOutcome::Moved);
    assert_eq!(positions_of(&game.piece), [(3, 7), (3, 6), (3, 5), (4, 6)]);
}

#[test]
fn boxed_in_rotation_reverts_and_does_not_lock() {
    // a full settled row right below the piece defeats the rotation and all
    // six kick offsets; the piece must return exactly to its pre-tick cells
    let row: Vec<(i32, i32)> = (0..10).map(|x| (x, 5)).collect();
    let mut game = game_with(row, tee_at(0, 5));
    let before = positions_of(&game.piece);
    let heap_before = heap_positions(&game.heap);
    let outcome = game.tick_with(rotate_cw(), 0, PieceKind::I);
    assert_eq!(outcome, TickOutcome::RotationRejected);
    assert_eq!(positions_of(&game.piece), before);
    assert_eq!(game.piece.cells[0].index, Pos { x: 0, y: 1 });
    assert_eq!(game.piece.kind, PieceKind::T);
    assert_eq!(heap_positions(&game.heap), heap_before);
}

#[test]
fn left_move_at_the_wall_clamps_to_zero_and_does_not_lock() {
    // leftmost cell already at x = 0: the shared clamp cancels the move for
    // the whole piece, the candidate is valid, and nothing locks
    let mut game = game_with(vec![], tee_at(0, 5));
    let before = positions_of(&game.piece);
    let input = TickInput { left: true, ..no_input() };
    let outcome = game.tick_with(input, 0, PieceKind::I);
    assert_eq!(outcome, TickOutcome::Moved);
    assert_eq!(positions_of(&game.piece), before);
    assert_eq!(game.heap.cells.len(), 0);
}

#[test]
fn right_move_at_the_wall_clamps_to_the_last_column() {
    // rightmost cell at x = 9 on a 10-wide grid: a right move is cancelled
    // for the whole piece by the same shared amount
    let mut game = game_with(vec![], tee_at(7, 5));
    let before = positions_of(&game.piece);
    let input = TickInput { right: true, ..no_input() };
    let outcome = game.tick_with(input, 0, PieceKind::I);
    assert_eq!(outcome, TickOutcome::Moved);
    assert_eq!(positions_of(&game.piece), before);
}

#[test]
fn clamp_never_tears_the_piece_apart() {
    // rotating the line piece against the left wall shifts some columns; the
    // piece keeps its shape: relative offsets between cells are preserved
    let grid = Grid::new(10, 22);
    let mut game = Game::new(grid, PieceKind::I);
    // drive it to the left wall
    let left = TickInput { left: true, ..no_input() };
    for _ in 0..6 {
        game.tick_with(left, 0, PieceKind::O);
    }
    let before = positions_of(&game.piece);
    game.tick_with(rotate_cw(), 0, PieceKind::O);
    let after = positions_of(&game.piece);
    for i in 1..4 {
        // the line stays a connected line: pairwise deltas are a rigid turn
        let dx = after[i].0 - after[0].0;
        let dy = after[i].1 - after[0].1;
        let odx = before[i].0 - before[0].0;
        let ody = before[i].1 - before[0].1;
        assert_eq!((dx, dy), (ody, -odx));
    }
}

#[test]
fn blocked_sideways_move_locks_the_piece() {
    // a failed plain move locks even when its failure is horizontal overlap:
    // the settled cell at (1, 6) blocks a left move of the tee at (2, 5)
    let mut game = game_with(vec![(1, 6)], tee_at(2, 5));
    let input = TickInput { left: true, ..no_input() };
    let outcome = game.tick_with(input, 0, PieceKind::O);
    assert_eq!(outcome, TickOutcome::Locked);
    // the heap gained the piece's pre-tick cells, after the settled one
    assert_eq!(
        heap_positions(&game.heap),
        vec![(1, 6), (2, 6), (3, 6), (4, 6), (3, 7)]
    );
    assert_eq!(game.piece.kind, PieceKind::O);
}

#[test]
fn lock_spawns_the_injected_kind_at_the_spawn_offset() {
    let mut game = game_with(vec![], tee_at(3, 0));
    // the tee sits on the floor (lowest cell at y = 1? no: cells at y = 1
    // and 2); drop it twice: the second down-move fails and locks
    let first = game.tick_with(down(), 0, PieceKind::Z);
    assert_eq!(first, TickOutcome::Moved);
    let second = game.tick_with(down(), 0, PieceKind::Z);
    assert_eq!(second, TickOutcome::Locked);
    assert_eq!(heap_positions(&game.heap), vec![(3, 0), (4, 0), (5, 0), (4, 1)]);
    assert_eq!(game.piece.kind, PieceKind::Z);
    assert_eq!(positions_of(&game.piece), [(5, 21), (4, 21), (4, 20), (3, 20)]);
}

#[test]
fn the_validity_predicate_checks_floor_heap_and_columns() {
    let grid = Grid::new(10, 22);
    let heap = Heap { cells: vec![HeapCell { pos: Pos { x: 4, y: 19 }, color: kind_color(PieceKind::O) }] };
    let empty = Heap { cells: vec![] };
    let spawned = Piece::spawn(PieceKind::O, &grid);
    assert!(is_valid(&spawned, &grid, &empty));
    // a spawned cell coincides with the settled one
    assert!(!is_valid(&spawned, &grid, &heap));
    // below the floor
    assert!(!is_valid(&spawned.translated(0, -20), &grid, &empty));
    // outside the columns
    assert!(!is_valid(&spawned.translated(5, 0), &grid, &empty));
    assert!(!is_valid(&spawned.translated(-5, 0), &grid, &empty));
}

#[test]
fn grid_reports_its_column_bounds() {
    let grid = Grid::new(10, 22);
    assert!(grid.in_x_bounds(0));
    assert!(grid.in_x_bounds(9));
    assert!(!grid.in_x_bounds(-1));
    assert!(!grid.in_x_bounds(10));
    assert_eq!(grid.width, 10);
    assert_eq!(grid.height, 22);
}

#[test]
fn counter_clockwise_wins_when_both_rotations_are_pressed() {
    let mut game = game_with(vec![], tee_at(4, 10));
    let input = TickInput { rotate_cw: true, rotate_ccw: true, ..no_input() };
    let outcome = game.tick_with(input, 0, PieceKind::I);
    assert_eq!(outcome, TickOutcome::Moved);
    // counter-clockwise in a 3-square: (x, y) -> (2 - y, x)
    assert_eq!(game.piece.cells[0].index, Pos { x: 1, y: 0 });
    assert_eq!(positions_of(&game.piece), [(5, 10), (5, 11), (5, 12), (4, 11)]);
}

#[test]
fn opposite_presses_cancel_out() {
    let mut game = game_with(vec![], tee_at(4, 10));
    let before = positions_of(&game.piece);
    let input = TickInput { left: true, right: true, ..no_input() };
    let outcome = game.tick_with(input, 0, PieceKind::I);
    assert_eq!(outcome, TickOutcome::Moved);
    assert_eq!(positions_of(&game.piece), before);
}

#[test]
fn rotation_and_translation_compose_in_one_tick() {
    let mut game = game_with(vec![], tee_at(4, 10));
    let input = TickInput { right: true, down: true, rotate_cw: true, ..no_input() };
    let outcome = game.tick_with(input, 0, PieceKind::I);
    assert_eq!(outcome, TickOutcome::Moved);
    // the clockwise turn around (4, 10), then one column right and one row down
    assert_eq!(positions_of(&game.piece), [(6, 11), (6, 10), (6, 9), (7, 10)]);
}
