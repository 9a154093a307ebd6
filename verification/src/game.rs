use vstd::prelude::*;
use crate::clock::{GameClock, SOFT_DROP_PERIOD_MS, spec_advanced};
use crate::grid::Grid;
use crate::heap::{Heap, HeapCell};
use crate::piece::{
    CellState, Piece, pos_in_range, spec_rotated_cell, spec_spawn_cell, spec_translated_cell,
};
use crate::rng::next_kind;
use crate::shape::{PieceKind, kind_color, spec_bbox_size, spec_kind_color};

verus! {

/// The edge-triggered intents of one tick: each is true at most once per
/// physical press.  The soft-drop pulse of the clock acts as one more down
/// request and is folded in by the controller itself.
#[derive(Clone, Copy, PartialEq, Eq, Structural, Debug)]
pub struct TickInput {
    pub left: bool,
    pub right: bool,
    pub down: bool,
    pub rotate_cw: bool,
    pub rotate_ccw: bool,
}

/// What one tick did to the active piece.
#[derive(Clone, Copy, PartialEq, Eq, Structural, Debug)]
pub enum TickOutcome {
    /// The candidate placement (possibly after a wall kick) was committed.
    Moved,
    /// A plain move failed: the piece settled into the heap and a fresh piece
    /// spawned.
    Locked,
    /// A rotation failed even after every kick offset: the piece is exactly
    /// as it was before the tick.
    RotationRejected,
}

/// The requested rotation direction: counter-clockwise wins when both
/// rotation intents arrive in the same tick.
pub open spec fn spec_rotation_request(input: TickInput) -> Option<bool> {
    if input.rotate_ccw {
        Some(false)
    } else if input.rotate_cw {
        Some(true)
    } else {
        None
    }
}

/// The horizontal move a tick requests: right minus left.
pub open spec fn spec_move_x(input: TickInput) -> int {
    (if input.right {
        1int
    } else {
        0int
    }) - (if input.left {
        1int
    } else {
        0int
    })
}

/// Whether a down-move fires this tick: a soft-drop press, or the clock pulse
/// after this tick's advance.
pub open spec fn spec_down_fires(input: TickInput, clock: GameClock, delta_ms: u64) -> bool {
    input.down || spec_advanced(clock, delta_ms).finished()
}

/// The vertical move a tick requests: one row down when a down-move fires.
pub open spec fn spec_move_y(input: TickInput, clock: GameClock, delta_ms: u64) -> int {
    if spec_down_fires(input, clock, delta_ms) {
        -1int
    } else {
        0int
    }
}

/// The clock after the tick: advanced, and reset when a down-move consumed
/// it, whichever source fired.
pub open spec fn spec_clock_after(clock: GameClock, input: TickInput, delta_ms: u64) -> GameClock {
    let advanced = spec_advanced(clock, delta_ms);
    if spec_down_fires(input, clock, delta_ms) {
        GameClock { elapsed_ms: 0, period_ms: advanced.period_ms }
    } else {
        advanced
    }
}

/// The fixed wall-kick ladder, a priority order: tried first to last, and the
/// first offset that validates wins.
pub open spec fn spec_kick_offset(j: int) -> (int, int) {
    if j == 0 {
        (1, 0)
    } else if j == 1 {
        (2, 0)
    } else if j == 2 {
        (-1, 0)
    } else if j == 3 {
        (-2, 0)
    } else if j == 4 {
        (-1, -2)
    } else {
        (1, -2)
    }
}

/// One fold step of the horizontal overflow scan: a cell past the left wall
/// deepens the most negative overflow, one past the right wall raises the
/// most positive overflow.
pub open spec fn spec_x_over_step(x: int, width: int, acc: int) -> int {
    if x < 0 {
        if x < acc {
            x
        } else {
            acc
        }
    } else if x >= width {
        if x - width + 1 > acc {
            x - width + 1
        } else {
            acc
        }
    } else {
        acc
    }
}

/// Whether one cell placement is acceptable: on or above the floor, inside
/// the grid columns, and not on a settled block.  The column check is
/// defense in depth: the controller's clamp already keeps its candidates
/// inside the columns, and this predicate makes sure nothing outside them is
/// ever committed.
pub open spec fn spec_cell_ok(cell: CellState, grid: Grid, heap: Heap) -> bool {
    &&& cell.pos.y >= 0
    &&& 0 <= cell.pos.x < grid.width
    &&& !heap.occupied(cell.pos.x as int, cell.pos.y as int)
}

/// Whether a whole candidate piece is acceptable.
pub open spec fn spec_piece_ok(piece: Piece, grid: Grid, heap: Heap) -> bool {
    forall|i: int| 0 <= i < 4 ==> spec_cell_ok(#[trigger] piece.cells@[i], grid, heap)
}

/// Whether a fresh piece of `kind` would spawn clear of the heap.
pub open spec fn spec_spawn_free(kind: PieceKind, grid: Grid, heap: Heap) -> bool {
    forall|i: int|
        0 <= i < 4 ==> spec_cell_ok(#[trigger] spec_spawn_cell(kind, i, grid.height as int), grid, heap)
}

/// The collision resolver: whether every cell of the candidate lies on or
/// above the floor, inside the grid columns, and off the settled heap.
pub fn is_valid(candidate: &Piece, grid: &Grid, heap: &Heap) -> (valid: bool)
    ensures
        valid == spec_piece_ok(*candidate, *grid, *heap),
{
    let valid = cell_ok(&candidate.cells[0], grid, heap) && cell_ok(&candidate.cells[1], grid, heap)
        && cell_ok(&candidate.cells[2], grid, heap) && cell_ok(&candidate.cells[3], grid, heap);
    proof {
        if valid {
            assert forall|i: int| 0 <= i < 4 implies spec_cell_ok(
                #[trigger] candidate.cells@[i],
                *grid,
                *heap,
            ) by {
                if i == 0 {
                } else if i == 1 {
                } else if i == 2 {
                } else {
                    assert(i == 3);
                }
            }
        }
    }
    valid
}

/// One cell of the resolver's check.
fn cell_ok(cell: &CellState, grid: &Grid, heap: &Heap) -> (ok: bool)
    ensures
        ok == spec_cell_ok(*cell, *grid, *heap),
{
    cell.pos.y >= 0 && 0 <= cell.pos.x && cell.pos.x < grid.width && !heap.contains(
        cell.pos.x,
        cell.pos.y,
    )
}

/// One cell of the pre-clamp movement candidate: rotated in place when a
/// rotation was requested, then shifted by the requested move.
pub open spec fn spec_target_cell(
    cell: CellState,
    bbox: int,
    rotation: Option<bool>,
    mx: int,
    my: int,
) -> CellState {
    match rotation {
        Some(clockwise) => spec_translated_cell(spec_rotated_cell(cell, bbox, clockwise), mx, my),
        None => spec_translated_cell(cell, mx, my),
    }
}

/// The whole rule-engine state: the grid, the settled heap, the one active
/// piece, and the soft-drop clock.
#[derive(Debug)]
pub struct Game {
    pub grid: Grid,
    pub heap: Heap,
    pub piece: Piece,
    pub clock: GameClock,
}

impl Game {
    /// The state invariant the controller maintains: a well-formed grid wide
    /// and tall enough for the fixed spawn offset, a well-formed heap, a
    /// geometrically well-formed piece, and the piece's bounding square never
    /// above the grid top.
    pub open spec fn wf(self) -> bool {
        &&& self.grid.wf()
        &&& self.grid.width >= 6
        &&& self.grid.height >= 4
        &&& self.heap.wf(self.grid)
        &&& self.piece.wf()
        &&& self.piece.anchor_y() + spec_bbox_size(self.piece.kind) <= self.grid.height
    }

    /// The active piece stands on a committed placement: every cell on or
    /// above the floor, inside the columns, and clear of the heap.
    pub open spec fn piece_placed(self) -> bool {
        forall|i: int| 0 <= i < 4 ==> spec_cell_ok(#[trigger] self.piece.cells@[i], self.grid, self.heap)
    }

    /// Cell `i` of this tick's pre-clamp candidate.
    pub open spec fn target_cell(self, input: TickInput, delta_ms: u64, i: int) -> CellState {
        spec_target_cell(
            self.piece.cells@[i],
            spec_bbox_size(self.piece.kind),
            spec_rotation_request(input),
            spec_move_x(input),
            spec_move_y(input, self.clock, delta_ms),
        )
    }

    /// The single shared horizontal overflow of this tick's candidate,
    /// scanned across the four cells in order.
    pub open spec fn clamp_amount(self, input: TickInput, delta_ms: u64) -> int {
        let w = self.grid.width as int;
        spec_x_over_step(
            self.target_cell(input, delta_ms, 3).pos.x as int,
            w,
            spec_x_over_step(
                self.target_cell(input, delta_ms, 2).pos.x as int,
                w,
                spec_x_over_step(
                    self.target_cell(input, delta_ms, 1).pos.x as int,
                    w,
                    spec_x_over_step(self.target_cell(input, delta_ms, 0).pos.x as int, w, 0),
                ),
            ),
        )
    }

    /// Cell `i` of this tick's clamped candidate: the shared overflow is
    /// subtracted from every cell's column alike.
    pub open spec fn candidate_cell(self, input: TickInput, delta_ms: u64, i: int) -> CellState {
        spec_translated_cell(
            self.target_cell(input, delta_ms, i),
            -self.clamp_amount(input, delta_ms),
            0,
        )
    }

    /// Whether the clamped candidate validates as it stands.
    pub open spec fn candidate_ok(self, input: TickInput, delta_ms: u64) -> bool {
        forall|i: int|
            0 <= i < 4 ==> spec_cell_ok(
                #[trigger] self.candidate_cell(input, delta_ms, i),
                self.grid,
                self.heap,
            )
    }

    /// Cell `i` of the clamped candidate pushed by kick offset `j`.
    pub open spec fn kicked_cell(self, input: TickInput, delta_ms: u64, j: int, i: int) -> CellState {
        spec_translated_cell(
            self.candidate_cell(input, delta_ms, i),
            spec_kick_offset(j).0,
            spec_kick_offset(j).1,
        )
    }

    /// Whether kick offset `j` validates on top of the clamped candidate.
    pub open spec fn kick_ok(self, input: TickInput, delta_ms: u64, j: int) -> bool {
        forall|i: int|
            0 <= i < 4 ==> spec_cell_ok(
                #[trigger] self.kicked_cell(input, delta_ms, j, i),
                self.grid,
                self.heap,
            )
    }

    /// The first rung of the kick ladder that validates, if any: the ladder
    /// is a fixed priority, never re-ordered.
    pub open spec fn first_kick(self, input: TickInput, delta_ms: u64) -> Option<int> {
        if self.kick_ok(input, delta_ms, 0) {
            Some(0int)
        } else if self.kick_ok(input, delta_ms, 1) {
            Some(1int)
        } else if self.kick_ok(input, delta_ms, 2) {
            Some(2int)
        } else if self.kick_ok(input, delta_ms, 3) {
            Some(3int)
        } else if self.kick_ok(input, delta_ms, 4) {
            Some(4int)
        } else if self.kick_ok(input, delta_ms, 5) {
            Some(5int)
        } else {
            None
        }
    }
}

/// Everything one tick does, relating the state before (`pre`) to the state
/// after (`post`).  In priority order: a clamped candidate that validates is
/// committed; otherwise, with a rotation requested, the first kick offset
/// that validates is committed, and with none valid the piece reverts
/// untouched; otherwise the piece settles into the heap at its pre-tick
/// cells and a fresh piece of `next_kind` spawns.  A failed rotation never
/// locks the piece; a failed plain move always does.
pub open spec fn spec_tick_post(
    pre: Game,
    post: Game,
    input: TickInput,
    delta_ms: u64,
    next_kind: PieceKind,
    outcome: TickOutcome,
) -> bool {
    &&& post.grid == pre.grid
    &&& post.clock == spec_clock_after(pre.clock, input, delta_ms)
    &&& pre.heap.cells@.is_prefix_of(post.heap.cells@)
    &&& if pre.candidate_ok(input, delta_ms) {
        &&& outcome == TickOutcome::Moved
        &&& post.heap.cells@ == pre.heap.cells@
        &&& post.piece.kind == pre.piece.kind
        &&& forall|i: int|
            0 <= i < 4 ==> post.piece.cells@[i] == pre.candidate_cell(input, delta_ms, i)
    } else if spec_rotation_request(input) is Some {
        match pre.first_kick(input, delta_ms) {
            Some(j) => {
                &&& outcome == TickOutcome::Moved
                &&& post.heap.cells@ == pre.heap.cells@
                &&& post.piece.kind == pre.piece.kind
                &&& forall|i: int|
                    0 <= i < 4 ==> post.piece.cells@[i] == pre.kicked_cell(input, delta_ms, j, i)
            },
            None => {
                &&& outcome == TickOutcome::RotationRejected
                &&& post.heap.cells@ == pre.heap.cells@
                &&& post.piece == pre.piece
            },
        }
    } else {
        &&& outcome == TickOutcome::Locked
        &&& post.heap.cells@.len() == pre.heap.cells@.len() + 4
        &&& forall|i: int|
            0 <= i < 4 ==> post.heap.cells@[pre.heap.cells@.len() + i] == (HeapCell {
                pos: pre.piece.cells@[i].pos,
                color: spec_kind_color(pre.piece.kind),
            })
        &&& post.piece.kind == next_kind
        &&& forall|i: int|
            0 <= i < 4 ==> post.piece.cells@[i] == spec_spawn_cell(
                next_kind,
                i,
                pre.grid.height as int,
            )
    }
}

impl Game {
    /// A fresh session: an empty heap, a just-spawned piece of `first_kind`,
    /// and an untouched soft-drop clock.  The grid must be wide and tall
    /// enough to hold the fixed spawn offset.
    pub fn new(grid: Grid, first_kind: PieceKind) -> (game: Game)
        requires
            grid.wf(),
            grid.width >= 6,
            grid.height >= 4,
        ensures
            game.wf(),
            game.piece_placed(),
            game.grid == grid,
            game.heap.cells@.len() == 0,
            game.piece.kind == first_kind,
            forall|i: int|
                0 <= i < 4 ==> game.piece.cells@[i] == spec_spawn_cell(
                    first_kind,
                    i,
                    grid.height as int,
                ),
            game.clock.elapsed_ms == 0,
            game.clock.period_ms == SOFT_DROP_PERIOD_MS,
    {
        let game = Game {
            grid,
            heap: Heap::new(),
            piece: Piece::spawn(first_kind, &grid),
            clock: GameClock::new(SOFT_DROP_PERIOD_MS),
        };
        proof {
            crate::shape::lemma_offsets_in_bbox(first_kind);
            assert forall|i: int| 0 <= i < 4 implies spec_cell_ok(
                #[trigger] game.piece.cells@[i],
                grid,
                game.heap,
            ) by {
                assert(game.piece.cells@[i] == spec_spawn_cell(first_kind, i, grid.height as int));
            }
        }
        game
    }

    /// A fresh session whose first piece kind is drawn from the randomizer.
    pub fn new_random(grid: Grid) -> (game: Game)
        requires
            grid.wf(),
            grid.width >= 6,
            grid.height >= 4,
        ensures
            game.wf(),
            game.piece_placed(),
            game.grid == grid,
            game.heap.cells@.len() == 0,
            forall|i: int|
                0 <= i < 4 ==> game.piece.cells@[i] == spec_spawn_cell(
                    game.piece.kind,
                    i,
                    grid.height as int,
                ),
            game.clock.elapsed_ms == 0,
            game.clock.period_ms == SOFT_DROP_PERIOD_MS,
    {
        let kind = next_kind();
        Game::new(grid, kind)
    }
}

impl Game {
    /// The first half of a tick: advance the clock, read the requested move
    /// and rotation, and build the clamped candidate.  Only the clock is
    /// mutated; the candidate is a pure value for the caller to validate.
    #[verifier::rlimit(60)]
    fn advance_and_candidate(&mut self, input: TickInput, delta_ms: u64) -> (candidate: Piece)
        requires
            old(self).wf(),
            old(self).piece_placed(),
        ensures
            final(self).grid == old(self).grid,
            final(self).heap == old(self).heap,
            final(self).piece == old(self).piece,
            final(self).clock == spec_clock_after(old(self).clock, input, delta_ms),
            candidate.kind == old(self).piece.kind,
            candidate.wf(),
            candidate.anchor_y() + spec_bbox_size(candidate.kind) <= old(self).grid.height,
            forall|i: int| 0 <= i < 4 ==> pos_in_range((#[trigger] candidate.cells@[i]).pos),
            forall|i: int|
                0 <= i < 4 ==> (#[trigger] candidate.cells@[i]) == old(self).candidate_cell(
                    input,
                    delta_ms,
                    i,
                ),
    {
        let ghost pre = *old(self);
        proof {
            lemma_tick_ranges(pre, input, delta_ms);
        }
        self.clock.advance(delta_ms);
        let mut move_y: i32 = 0;
        if input.down || self.clock.is_finished() {
            move_y = -1;
            self.clock.reset();
        }
        let mut move_x: i32 = 0;
        if input.left {
            move_x = move_x - 1;
        }
        if input.right {
            move_x = move_x + 1;
        }
        let rotation: Option<bool> = if input.rotate_ccw {
            Some(false)
        } else if input.rotate_cw {
            Some(true)
        } else {
            None
        };
        proof {
            assert(self.clock == spec_clock_after(pre.clock, input, delta_ms));
            assert(move_x as int == spec_move_x(input));
            assert(move_y as int == spec_move_y(input, pre.clock, delta_ms));
            assert(rotation == spec_rotation_request(input));
        }
        let base = match rotation {
            Some(clockwise) => self.piece.rotated(clockwise),
            None => self.piece,
        };
        proof {
            assert forall|i: int| 0 <= i < 4 implies pos_in_range(
                (#[trigger] base.cells@[i]).pos,
            ) by {
                assert(pos_in_range(pre.piece.cells@[i].pos));
                assert(spec_cell_ok(pre.piece.cells@[i], pre.grid, pre.heap));
            }
        }
        let moved = base.translated(move_x, move_y);
        proof {
            assert forall|i: int| 0 <= i < 4 implies (#[trigger] moved.cells@[i])
                == pre.target_cell(input, delta_ms, i) by {
                assert(moved.cells@[i] == spec_translated_cell(
                    base.cells@[i],
                    move_x as int,
                    move_y as int,
                ));
            }
        }
        let mut x_over: i32 = 0;
        x_over = x_over_step(moved.cells[0].pos.x, self.grid.width, x_over);
        x_over = x_over_step(moved.cells[1].pos.x, self.grid.width, x_over);
        x_over = x_over_step(moved.cells[2].pos.x, self.grid.width, x_over);
        x_over = x_over_step(moved.cells[3].pos.x, self.grid.width, x_over);
        proof {
            assert(x_over as int == pre.clamp_amount(input, delta_ms));
        }
        let candidate = moved.translated(-x_over, 0);
        proof {
            assert forall|i: int| 0 <= i < 4 implies (#[trigger] candidate.cells@[i])
                == pre.candidate_cell(input, delta_ms, i) by {
                assert(moved.cells@[i] == pre.target_cell(input, delta_ms, i));
            }
            assert(candidate.wf());
            assert(candidate.anchor_y() + spec_bbox_size(candidate.kind) <= self.grid.height);
        }
        candidate
    }

    /// One tick of the movement/rotation controller, with the kind a lock-in
    /// would respawn passed in explicitly, so a caller (or a test) can drive
    /// the whole tick deterministically.  [`Game::tick`] draws that kind from
    /// the randomizer.
    ///
    /// The tick computes the requested move (left/right/down, the clock pulse
    /// acting as one more down), folds a requested rotation into it, clamps
    /// the horizontal overflow by one shared amount, and then validates: a
    /// valid candidate is committed; an invalid one with a rotation walks the
    /// wall-kick ladder and reverts wholly if no rung validates; an invalid
    /// one without a rotation locks the piece into the heap at its pre-tick
    /// cells and spawns a fresh piece of `next_kind`.
    #[verifier::rlimit(100)]
    #[verifier::spinoff_prover]
    pub fn tick_with(
        &mut self,
        input: TickInput,
        delta_ms: u64,
        next_kind: PieceKind,
    ) -> (outcome: TickOutcome)
        requires
            old(self).wf(),
            old(self).piece_placed(),
        ensures
            final(self).wf(),
            spec_tick_post(*old(self), *final(self), input, delta_ms, next_kind, outcome),
            outcome != TickOutcome::Locked ==> final(self).piece_placed(),
            outcome == TickOutcome::Locked ==> (final(self).piece_placed()
                <==> spec_spawn_free(next_kind, final(self).grid, final(self).heap)),
    {
        let ghost pre = *old(self);
        let candidate = self.advance_and_candidate(input, delta_ms);
        if is_valid(&candidate, &self.grid, &self.heap) {
            proof {
                lemma_candidate_commit(pre, candidate, input, delta_ms);
            }
            self.piece = candidate;
            return TickOutcome::Moved;
        }
        proof {
            assert(!pre.candidate_ok(input, delta_ms)) by {
                if pre.candidate_ok(input, delta_ms) {
                    assert forall|i: int| 0 <= i < 4 implies spec_cell_ok(
                        #[trigger] candidate.cells@[i],
                        pre.grid,
                        pre.heap,
                    ) by {
                        assert(candidate.cells@[i] == pre.candidate_cell(input, delta_ms, i));
                        assert(spec_cell_ok(
                            pre.candidate_cell(input, delta_ms, i),
                            pre.grid,
                            pre.heap,
                        ));
                    }
                }
            }
        }
        if input.rotate_ccw || input.rotate_cw {
            match self.try_kicks(candidate, Ghost(pre), Ghost(input), Ghost(delta_ms)) {
                Some(kicked) => {
                    self.piece = kicked;
                    TickOutcome::Moved
                },
                None => TickOutcome::RotationRejected,
            }
        } else {
            self.settle_and_respawn(next_kind);
            TickOutcome::Locked
        }
    }

    /// One tick with the respawn kind drawn from the randomizer, as the live
    /// game runs it.  On a lock the fresh piece's kind is whatever the draw
    /// returned, so the contract pins the spawn cells to that kind.
    pub fn tick(&mut self, input: TickInput, delta_ms: u64) -> (outcome: TickOutcome)
        requires
            old(self).wf(),
            old(self).piece_placed(),
        ensures
            final(self).wf(),
            spec_tick_post(
                *old(self),
                *final(self),
                input,
                delta_ms,
                final(self).piece.kind,
                outcome,
            ),
            outcome != TickOutcome::Locked ==> final(self).piece_placed(),
            outcome == TickOutcome::Locked ==> (final(self).piece_placed()
                <==> spec_spawn_free(final(self).piece.kind, final(self).grid, final(self).heap)),
    {
        let kind = next_kind();
        self.tick_with(input, delta_ms, kind)
    }

    /// The wall-kick ladder: each fixed offset applied on top of the already
    /// clamped candidate, in priority order; the first that validates is the
    /// committed piece, and when none does the rotation is rejected.
    fn try_kicks(
        &self,
        candidate: Piece,
        Ghost(pre): Ghost<Game>,
        Ghost(input): Ghost<TickInput>,
        Ghost(delta_ms): Ghost<u64>,
    ) -> (kick: Option<Piece>)
        requires
            pre.wf(),
            pre.piece_placed(),
            self.grid == pre.grid,
            self.heap == pre.heap,
            candidate.kind == pre.piece.kind,
            candidate.wf(),
            candidate.anchor_y() + spec_bbox_size(candidate.kind) <= pre.grid.height,
            forall|i: int| 0 <= i < 4 ==> pos_in_range((#[trigger] candidate.cells@[i]).pos),
            forall|i: int|
                0 <= i < 4 ==> (#[trigger] candidate.cells@[i]) == pre.candidate_cell(
                    input,
                    delta_ms,
                    i,
                ),
        ensures
            match pre.first_kick(input, delta_ms) {
                Some(j) => {
                    &&& kick matches Some(p)
                    &&& p.kind == pre.piece.kind
                    &&& p.wf()
                    &&& p.anchor_y() + spec_bbox_size(p.kind) <= pre.grid.height
                    &&& spec_piece_ok(p, pre.grid, pre.heap)
                    &&& forall|i: int|
                        0 <= i < 4 ==> p.cells@[i] == pre.kicked_cell(input, delta_ms, j, i)
                },
                None => kick is None,
            },
    {
        let kicked = candidate.translated(1, 0);
        proof {
            lemma_kick_shape(pre, candidate, kicked, input, delta_ms, 0);
        }
        if is_valid(&kicked, &self.grid, &self.heap) {
            proof {
                lemma_kick_commit(pre, kicked, input, delta_ms, 0);
            }
            return Some(kicked);
        }
        proof {
            lemma_kick_refused(pre, kicked, input, delta_ms, 0);
        }
        let kicked = candidate.translated(2, 0);
        proof {
            lemma_kick_shape(pre, candidate, kicked, input, delta_ms, 1);
        }
        if is_valid(&kicked, &self.grid, &self.heap) {
            proof {
                lemma_kick_commit(pre, kicked, input, delta_ms, 1);
            }
            return Some(kicked);
        }
        proof {
            lemma_kick_refused(pre, kicked, input, delta_ms, 1);
        }
        let kicked = candidate.translated(-1, 0);
        proof {
            lemma_kick_shape(pre, candidate, kicked, input, delta_ms, 2);
        }
        if is_valid(&kicked, &self.grid, &self.heap) {
            proof {
                lemma_kick_commit(pre, kicked, input, delta_ms, 2);
            }
            return Some(kicked);
        }
        proof {
            lemma_kick_refused(pre, kicked, input, delta_ms, 2);
        }
        let kicked = candidate.translated(-2, 0);
        proof {
            lemma_kick_shape(pre, candidate, kicked, input, delta_ms, 3);
        }
        if is_valid(&kicked, &self.grid, &self.heap) {
            proof {
                lemma_kick_commit(pre, kicked, input, delta_ms, 3);
            }
            return Some(kicked);
        }
        proof {
            lemma_kick_refused(pre, kicked, input, delta_ms, 3);
        }
        let kicked = candidate.translated(-1, -2);
        proof {
            lemma_kick_shape(pre, candidate, kicked, input, delta_ms, 4);
        }
        if is_valid(&kicked, &self.grid, &self.heap) {
            proof {
                lemma_kick_commit(pre, kicked, input, delta_ms, 4);
            }
            return Some(kicked);
        }
        proof {
            lemma_kick_refused(pre, kicked, input, delta_ms, 4);
        }
        let kicked = candidate.translated(1, -2);
        proof {
            lemma_kick_shape(pre, candidate, kicked, input, delta_ms, 5);
        }
        if is_valid(&kicked, &self.grid, &self.heap) {
            proof {
                lemma_kick_commit(pre, kicked, input, delta_ms, 5);
            }
            return Some(kicked);
        }
        proof {
            lemma_kick_refused(pre, kicked, input, delta_ms, 5);
        }
        None
    }

    /// Lock-in: the four cells settle into the heap at their pre-tick
    /// positions, with the piece's color, and a fresh piece of `next_kind`
    /// spawns.
    fn settle_and_respawn(&mut self, next_kind: PieceKind)
        requires
            old(self).wf(),
            old(self).piece_placed(),
        ensures
            final(self).wf(),
            final(self).grid == old(self).grid,
            final(self).clock == old(self).clock,
            final(self).heap.cells@.len() == old(self).heap.cells@.len() + 4,
            forall|i: int|
                0 <= i < 4 ==> final(self).heap.cells@[old(self).heap.cells@.len() + i]
                    == (HeapCell {
                    pos: old(self).piece.cells@[i].pos,
                    color: spec_kind_color(old(self).piece.kind),
                }),
            old(self).heap.cells@.is_prefix_of(final(self).heap.cells@),
            final(self).piece.kind == next_kind,
            forall|i: int|
                0 <= i < 4 ==> final(self).piece.cells@[i] == spec_spawn_cell(
                    next_kind,
                    i,
                    old(self).grid.height as int,
                ),
            final(self).piece_placed() <==> spec_spawn_free(
                next_kind,
                final(self).grid,
                final(self).heap,
            ),
    {
        let ghost pre = *old(self);
        let color = kind_color(self.piece.kind);
        let p0 = self.piece.cells[0].pos;
        let p1 = self.piece.cells[1].pos;
        let p2 = self.piece.cells[2].pos;
        let p3 = self.piece.cells[3].pos;
        self.heap.cells.push(HeapCell { pos: p0, color });
        self.heap.cells.push(HeapCell { pos: p1, color });
        self.heap.cells.push(HeapCell { pos: p2, color });
        self.heap.cells.push(HeapCell { pos: p3, color });
        proof {
            lemma_lock_heap(pre, self.heap, color);
        }
        self.piece = Piece::spawn(next_kind, &self.grid);
        proof {
            assert forall|i: int| 0 <= i < 4 implies (spec_cell_ok(
                #[trigger] self.piece.cells@[i],
                self.grid,
                self.heap,
            ) <==> spec_cell_ok(
                spec_spawn_cell(next_kind, i, self.grid.height as int),
                self.grid,
                self.heap,
            )) by {
                assert(self.piece.cells@[i] == spec_spawn_cell(
                    next_kind,
                    i,
                    self.grid.height as int,
                ));
            }
        }
    }
}

/// Committing a validated clamped candidate meets the tick contract's moved
/// branch and keeps the game well formed.
proof fn lemma_candidate_commit(pre: Game, candidate: Piece, input: TickInput, delta_ms: u64)
    requires
        pre.wf(),
        pre.piece_placed(),
        spec_piece_ok(candidate, pre.grid, pre.heap),
        forall|i: int|
            0 <= i < 4 ==> (#[trigger] candidate.cells@[i]) == pre.candidate_cell(
                input,
                delta_ms,
                i,
            ),
    ensures
        pre.candidate_ok(input, delta_ms),
{
    assert forall|i: int| 0 <= i < 4 implies spec_cell_ok(
        #[trigger] pre.candidate_cell(input, delta_ms, i),
        pre.grid,
        pre.heap,
    ) by {
        assert(candidate.cells@[i] == pre.candidate_cell(input, delta_ms, i));
        assert(spec_cell_ok(candidate.cells@[i], pre.grid, pre.heap));
    }
}

/// The cells a kick offset produces are exactly the kicked cells of the
/// tick's candidate.
proof fn lemma_kick_shape(
    pre: Game,
    candidate: Piece,
    kicked: Piece,
    input: TickInput,
    delta_ms: u64,
    j: int,
)
    requires
        forall|i: int|
            0 <= i < 4 ==> (#[trigger] candidate.cells@[i]) == pre.candidate_cell(
                input,
                delta_ms,
                i,
            ),
        forall|i: int|
            0 <= i < 4 ==> (#[trigger] kicked.cells@[i]) == spec_translated_cell(
                candidate.cells@[i],
                spec_kick_offset(j).0,
                spec_kick_offset(j).1,
            ),
    ensures
        forall|i: int|
            0 <= i < 4 ==> (#[trigger] kicked.cells@[i]) == pre.kicked_cell(input, delta_ms, j, i),
{
    assert forall|i: int| 0 <= i < 4 implies (#[trigger] kicked.cells@[i]) == pre.kicked_cell(
        input,
        delta_ms,
        j,
        i,
    ) by {
        assert(candidate.cells@[i] == pre.candidate_cell(input, delta_ms, i));
    }
}

/// A validated kick candidate makes its ladder rung acceptable.
proof fn lemma_kick_commit(pre: Game, kicked: Piece, input: TickInput, delta_ms: u64, j: int)
    requires
        spec_piece_ok(kicked, pre.grid, pre.heap),
        forall|i: int|
            0 <= i < 4 ==> (#[trigger] kicked.cells@[i]) == pre.kicked_cell(input, delta_ms, j, i),
    ensures
        pre.kick_ok(input, delta_ms, j),
{
    assert forall|i: int| 0 <= i < 4 implies spec_cell_ok(
        #[trigger] pre.kicked_cell(input, delta_ms, j, i),
        pre.grid,
        pre.heap,
    ) by {
        assert(kicked.cells@[i] == pre.kicked_cell(input, delta_ms, j, i));
        assert(spec_cell_ok(kicked.cells@[i], pre.grid, pre.heap));
    }
}

/// A refused kick candidate makes its ladder rung unacceptable.
proof fn lemma_kick_refused(pre: Game, kicked: Piece, input: TickInput, delta_ms: u64, j: int)
    requires
        !spec_piece_ok(kicked, pre.grid, pre.heap),
        forall|i: int|
            0 <= i < 4 ==> (#[trigger] kicked.cells@[i]) == pre.kicked_cell(input, delta_ms, j, i),
    ensures
        !pre.kick_ok(input, delta_ms, j),
{
    if pre.kick_ok(input, delta_ms, j) {
        assert forall|i: int| 0 <= i < 4 implies spec_cell_ok(
            #[trigger] kicked.cells@[i],
            pre.grid,
            pre.heap,
        ) by {
            assert(kicked.cells@[i] == pre.kicked_cell(input, delta_ms, j, i));
            assert(spec_cell_ok(pre.kicked_cell(input, delta_ms, j, i), pre.grid, pre.heap));
        }
    }
}

/// Settling the four cells of a placed piece extends the heap and keeps the
/// heap invariant: the cells were inside the columns and above the floor, on
/// free positions, and distinct among themselves.
proof fn lemma_lock_heap(pre: Game, heap: Heap, color: crate::shape::Rgb)
    requires
        pre.wf(),
        pre.piece_placed(),
        heap.cells@.len() == pre.heap.cells@.len() + 4,
        forall|k: int| 0 <= k < pre.heap.cells@.len() ==> heap.cells@[k] == pre.heap.cells@[k],
        forall|i: int|
            0 <= i < 4 ==> heap.cells@[pre.heap.cells@.len() + i] == (HeapCell {
                pos: pre.piece.cells@[i].pos,
                color,
            }),
    ensures
        heap.wf(pre.grid),
        pre.heap.cells@.is_prefix_of(heap.cells@),
{
    let n = pre.heap.cells@.len() as int;
    assert forall|k: int| 0 <= k < heap.cells@.len() implies 0 <= (#[trigger] heap.cells@[k]).pos.x
        < pre.grid.width && 0 <= heap.cells@[k].pos.y by {
        if k < n {
            assert(heap.cells@[k] == pre.heap.cells@[k]);
        } else {
            assert(heap.cells@[k] == (HeapCell { pos: pre.piece.cells@[k - n].pos, color }));
            assert(spec_cell_ok(pre.piece.cells@[k - n], pre.grid, pre.heap));
        }
    }
    assert forall|k: int, l: int| 0 <= k < l < heap.cells@.len() implies (
    #[trigger] heap.cells@[k]).pos != (#[trigger] heap.cells@[l]).pos by {
        if l < n {
            assert(heap.cells@[k] == pre.heap.cells@[k]);
            assert(heap.cells@[l] == pre.heap.cells@[l]);
        } else if k < n {
            let i = l - n;
            assert(heap.cells@[l] == (HeapCell { pos: pre.piece.cells@[i].pos, color }));
            assert(spec_cell_ok(pre.piece.cells@[i], pre.grid, pre.heap));
            assert(!pre.heap.occupied(
                pre.piece.cells@[i].pos.x as int,
                pre.piece.cells@[i].pos.y as int,
            ));
            assert(heap.cells@[k] == pre.heap.cells@[k]);
        } else {
            let i = k - n;
            let j = l - n;
            assert(heap.cells@[k] == (HeapCell { pos: pre.piece.cells@[i].pos, color }));
            assert(heap.cells@[l] == (HeapCell { pos: pre.piece.cells@[j].pos, color }));
            assert(pre.piece.cells@[i].index != pre.piece.cells@[j].index);
            assert(pre.piece.cells@[i].pos.x == pre.piece.anchor_x() + pre.piece.cells@[i].index.x);
            assert(pre.piece.cells@[j].pos.x == pre.piece.anchor_x() + pre.piece.cells@[j].index.x);
            assert(pre.piece.cells@[i].pos.y == pre.piece.anchor_y() + pre.piece.cells@[i].index.y);
            assert(pre.piece.cells@[j].pos.y == pre.piece.anchor_y() + pre.piece.cells@[j].index.y);
        }
    }
    assert(pre.heap.cells@.is_prefix_of(heap.cells@)) by {
        assert(pre.heap.cells@ =~= heap.cells@.subrange(0, n));
    }
}

/// Law: in every well-formed game state, no settled cell lies below the
/// floor or outside the grid columns.  [`Game::tick_with`] keeps `wf`, so the
/// property holds across every tick.
pub proof fn lemma_heap_cells_in_bounds(game: Game)
    requires
        game.wf(),
    ensures
        forall|k: int|
            0 <= k < game.heap.cells@.len() ==> 0 <= (#[trigger] game.heap.cells@[k]).pos.x
                < game.grid.width && 0 <= game.heap.cells@[k].pos.y,
{
}

/// Law: lock-in moves the whole piece at once and disturbs nothing.  After a
/// locking tick the settled cells already in the heap are exactly where they
/// were, the four cells of the locked piece follow them with the piece's
/// color, and a fresh active piece stands at the spawn offset of `next_kind`.
pub proof fn lemma_lock_in(
    pre: Game,
    post: Game,
    input: TickInput,
    delta_ms: u64,
    next_kind: PieceKind,
)
    requires
        spec_tick_post(pre, post, input, delta_ms, next_kind, TickOutcome::Locked),
    ensures
        forall|k: int| 0 <= k < pre.heap.cells@.len() ==> post.heap.cells@[k] == pre.heap.cells@[k],
        post.heap.cells@.len() == pre.heap.cells@.len() + 4,
        forall|i: int|
            0 <= i < 4 ==> post.heap.cells@[pre.heap.cells@.len() + i] == (HeapCell {
                pos: pre.piece.cells@[i].pos,
                color: spec_kind_color(pre.piece.kind),
            }),
        post.piece.kind == next_kind,
        forall|i: int|
            0 <= i < 4 ==> post.piece.cells@[i] == spec_spawn_cell(
                next_kind,
                i,
                pre.grid.height as int,
            ),
{
    assert(pre.heap.cells@.is_prefix_of(post.heap.cells@));
    assert forall|k: int| 0 <= k < pre.heap.cells@.len() implies post.heap.cells@[k]
        == pre.heap.cells@[k] by {
        assert(pre.heap.cells@ == post.heap.cells@.subrange(0, pre.heap.cells@.len() as int));
        assert(pre.heap.cells@[k] == post.heap.cells@.subrange(
            0,
            pre.heap.cells@.len() as int,
        )[k]);
    }
}

/// Law: the wall-kick ladder is deterministic.  Whatever rung the controller
/// commits is acceptable, and every rung before it was not: being valid later
/// in the ladder wins nothing.
pub proof fn lemma_kick_ladder_first_wins(game: Game, input: TickInput, delta_ms: u64)
    ensures
        match game.first_kick(input, delta_ms) {
            Some(j) => {
                &&& 0 <= j < 6
                &&& game.kick_ok(input, delta_ms, j)
                &&& forall|l: int| 0 <= l < j ==> !game.kick_ok(input, delta_ms, l)
            },
            None => forall|l: int| 0 <= l < 6 ==> !game.kick_ok(input, delta_ms, l),
        },
{
}

/// Law: the horizontal clamp is one shared translation of the whole piece,
/// never a per-cell clamp: it leaves every local index alone and moves every
/// cell's position by the same amount, so the piece cannot be torn apart.
pub proof fn lemma_clamp_is_shared_translation(game: Game, input: TickInput, delta_ms: u64)
    requires
        game.wf(),
        game.piece_placed(),
    ensures
        forall|i: int|
            0 <= i < 4 ==> (#[trigger] game.candidate_cell(input, delta_ms, i)).index
                == game.target_cell(input, delta_ms, i).index,
        forall|i: int|
            0 <= i < 4 ==> (#[trigger] game.candidate_cell(input, delta_ms, i)).pos.x
                == game.target_cell(input, delta_ms, i).pos.x - game.clamp_amount(input, delta_ms)
                && game.candidate_cell(input, delta_ms, i).pos.y == game.target_cell(
                input,
                delta_ms,
                i,
            ).pos.y,
        forall|i: int, j: int|
            0 <= i < 4 && 0 <= j < 4 ==> (#[trigger] game.candidate_cell(
                input,
                delta_ms,
                i,
            )).pos.x - (#[trigger] game.candidate_cell(input, delta_ms, j)).pos.x
                == game.target_cell(input, delta_ms, i).pos.x - game.target_cell(
                input,
                delta_ms,
                j,
            ).pos.x,
{
    lemma_tick_ranges(game, input, delta_ms);
}

/// Bounds scaffolding for one tick of a well-formed, placed game: the piece
/// sits in coordinate range, every pre-clamp target stays within a few cells
/// of the grid, the shared clamp amount is small, and the clamped candidate
/// stays in coordinate range.
proof fn lemma_tick_ranges(pre: Game, input: TickInput, delta_ms: u64)
    requires
        pre.wf(),
        pre.piece_placed(),
    ensures
        forall|i: int| 0 <= i < 4 ==> pos_in_range((#[trigger] pre.piece.cells@[i]).pos),
        forall|i: int|
            0 <= i < 4 ==> -8 <= (#[trigger] pre.target_cell(input, delta_ms, i)).pos.x
                <= pre.grid.width + 8 && -8 <= pre.target_cell(input, delta_ms, i).pos.y
                <= pre.grid.height + 8,
        -8 <= pre.clamp_amount(input, delta_ms) <= 9,
        forall|i: int|
            0 <= i < 4 ==> pos_in_range((#[trigger] pre.candidate_cell(input, delta_ms, i)).pos),
{
    let b = spec_bbox_size(pre.piece.kind);
    let w = pre.grid.width as int;
    assert forall|i: int| 0 <= i < 4 implies pos_in_range((#[trigger] pre.piece.cells@[i]).pos)
        && -8 <= pre.target_cell(input, delta_ms, i).pos.x <= pre.grid.width + 8 && -8
        <= pre.target_cell(input, delta_ms, i).pos.y <= pre.grid.height + 8 by {
        assert(spec_cell_ok(pre.piece.cells@[i], pre.grid, pre.heap));
        assert(pre.piece.cells@[i].pos.y == pre.piece.anchor_y() + pre.piece.cells@[i].index.y);
    }
    let x0 = pre.target_cell(input, delta_ms, 0).pos.x as int;
    let x1 = pre.target_cell(input, delta_ms, 1).pos.x as int;
    let x2 = pre.target_cell(input, delta_ms, 2).pos.x as int;
    let x3 = pre.target_cell(input, delta_ms, 3).pos.x as int;
    assert(-8 <= x0 <= w + 8);
    assert(-8 <= x1 <= w + 8);
    assert(-8 <= x2 <= w + 8);
    assert(-8 <= x3 <= w + 8);
    let s0 = spec_x_over_step(x0, w, 0);
    let s1 = spec_x_over_step(x1, w, s0);
    let s2 = spec_x_over_step(x2, w, s1);
    let s3 = spec_x_over_step(x3, w, s2);
    assert(-8 <= s0 <= 9);
    assert(-8 <= s1 <= 9);
    assert(-8 <= s2 <= 9);
    assert(-8 <= s3 <= 9);
    assert(pre.clamp_amount(input, delta_ms) == s3);
}

/// One exec fold step of the horizontal overflow scan.
fn x_over_step(x: i32, width: i32, acc: i32) -> (over: i32)
    requires
        width >= 1,
    ensures
        over == spec_x_over_step(x as int, width as int, acc as int),
        over == acc || (x < 0 && over == x) || (x >= width && over == x - width + 1),
{
    if x < 0 {
        if x < acc {
            x
        } else {
            acc
        }
    } else if x >= width {
        let over = x - width + 1;
        if over > acc {
            over
        } else {
            acc
        }
    } else {
        acc
    }
}

} // verus!
