use tetris_core::clock::{GameClock, SOFT_DROP_PERIOD_MS};
use tetris_core::game::{Game, TickInput, TickOutcome};
use tetris_core::grid::Grid;
use tetris_core::rng::next_kind;
use tetris_core::shape::{PieceKind, bbox_size};
use tetris_core::BLOCK_SIZE_PIXELS;

fn no_input() -> TickInput {
    TickInput { left: false, right: false, down: false, rotate_cw: false, rotate_ccw: false }
}

fn lowest_row(game: &Game) -> i32 {
    game.piece.cells.iter().map(|c| c.pos.y).min().unwrap()
}

#[test]
fn the_clock_fires_after_its_period() {
    let mut clock = GameClock::new(SOFT_DROP_PERIOD_MS);
    clock.advance(749);
    assert!(!clock.is_finished());
    clock.advance(1);
    assert!(clock.is_finished());
    clock.reset();
    assert!(!clock.is_finished());
    assert_eq!(clock.elapsed_ms, 0);
}

#[test]
fn the_clock_saturates_instead_of_wrapping() {
    let mut clock = GameClock::new(SOFT_DROP_PERIOD_MS);
    clock.advance(u64::MAX);
    clock.advance(u64::MAX);
    assert_eq!(clock.elapsed_ms, u64::MAX);
    assert!(clock.is_finished());
}

#[test]
fn the_timer_pulse_acts_as_a_down_move() {
    let mut game = Game::new(Grid::new(10, 22), PieceKind::O);
    let top = lowest_row(&game);
    // under the period: the piece does not move by itself
    let outcome = game.tick_with(no_input(), 700, PieceKind::I);
    assert_eq!(outcome, TickOutcome::Moved);
    assert_eq!(lowest_row(&game), top);
    // the accumulated time crosses the period: one row down, clock reset
    let outcome = game.tick_with(no_input(), 50, PieceKind::I);
    assert_eq!(outcome, TickOutcome::Moved);
    assert_eq!(lowest_row(&game), top - 1);
    assert_eq!(game.clock.elapsed_ms, 0);
}

#[test]
fn a_down_press_resets_the_timer() {
    let mut game = Game::new(Grid::new(10, 22), PieceKind::O);
    let top = lowest_row(&game);
    let down = TickInput { down: true, ..no_input() };
    game.tick_with(down, 700, PieceKind::I);
    assert_eq!(lowest_row(&game), top - 1);
    // the press consumed the accumulated 700 ms: 600 more do not fire
    game.tick_with(no_input(), 600, PieceKind::I);
    assert_eq!(lowest_row(&game), top - 1);
    assert_eq!(game.clock.elapsed_ms, 600);
}

#[test]
fn next_kinds_cover_the_whole_enumeration() {
    let mut seen = [false; 7];
    for _ in 0..2000 {
        let slot = match next_kind() {
            PieceKind::I => 0,
            PieceKind::O => 1,
            PieceKind::T => 2,
            PieceKind::S => 3,
            PieceKind::Z => 4,
            PieceKind::L => 5,
            PieceKind::J => 6,
        };
        seen[slot] = true;
    }
    assert!(seen.iter().all(|s| *s), "some kind never came up in 2000 draws");
}

#[test]
fn a_random_session_starts_at_the_spawn_offset() {
    let game = Game::new_random(Grid::new(10, 22));
    assert_eq!(game.heap.cells.len(), 0);
    let size = bbox_size(game.piece.kind);
    for cell in game.piece.cells.iter() {
        assert_eq!(cell.pos.x, cell.index.x + 3);
        assert_eq!(cell.pos.y, 22 - size + cell.index.y);
    }
}

#[test]
fn random_ticks_eventually_lock_and_keep_the_heap_inside_the_grid() {
    let mut game = Game::new_random(Grid::new(10, 22));
    let down = TickInput { down: true, ..no_input() };
    let mut locks = 0;
    for _ in 0..2000 {
        if locks >= 4 {
            break;
        }
        if game.tick(down, 0) == TickOutcome::Locked {
            locks += 1;
        }
    }
    assert!(locks >= 4);
    assert_eq!(game.heap.cells.len() % 4, 0);
    for cell in game.heap.cells.iter() {
        assert!(0 <= cell.pos.x && cell.pos.x < 10);
        assert!(cell.pos.y >= 0);
    }
    // no two settled cells share a position
    for i in 0..game.heap.cells.len() {
        for j in (i + 1)..game.heap.cells.len() {
            assert_ne!(game.heap.cells[i].pos, game.heap.cells[j].pos);
        }
    }
}

#[test]
fn the_block_size_is_twenty_five_pixels() {
    assert_eq!(BLOCK_SIZE_PIXELS, 25);
}
