use vstd::prelude::*;

use crate::block::{max_row, BlockSize, SingleBlockOffset};
use crate::game::{GameState, State};
use crate::grid::{CanvasOrigin, Grid, GridPosition};
use crate::piece::{transforms_of, Piece};
use crate::util::lemma_translate_grid_position;
use vstd::arithmetic::div_mod::{lemma_mod_add_multiples_vanish, lemma_small_mod};

verus! {

/// Time between two gravity steps at speed multiplier 1, in nanoseconds.
pub const BASE_INTERVAL_NANOS: u64 = 2_000_000_000;

/// Speed multiplier of a new game, in halves (a multiplier of 1).
pub const INITIAL_SPEED_HALVES: u32 = 2;

/// Largest speed multiplier, in halves: the interval is then one nanosecond.
pub const MAX_SPEED_HALVES: u32 = 4_000_000_000;

/// Interval between gravity steps for a multiplier of `speed_halves / 2`:
/// `BASE_INTERVAL_NANOS / (speed_halves / 2)`, rounded down to whole nanoseconds.
pub open spec fn interval_for(speed_halves: int) -> int {
    (2 * BASE_INTERVAL_NANOS) / speed_halves
}

/// The repeating gravity timer and the speed it runs at.
///
/// The speed multiplier is kept in halves, so that each speed-up adds exactly one
/// half; the timer keeps the time that has built up toward the next step.
#[derive(Debug, Clone, Copy, PartialEq, Eq, Structural)]
pub struct GravityState {
    pub speed_halves: u32,
    pub interval_nanos: u64,
    pub elapsed_nanos: u64,
}

/// What one gravity update did to the piece.
#[derive(Debug, Clone, Copy, PartialEq, Eq, Structural)]
pub enum GravityOutcome {
    /// No step was due, the game is paused, or the piece has already landed.
    Waiting,
    /// The piece moved one row down and is still falling.
    Fell,
    /// The piece moved one row down and reached the floor: it is no longer active.
    Landed,
}

impl GravityState {
    pub open spec fn wf(&self) -> bool {
        &&& 1 <= self.speed_halves <= MAX_SPEED_HALVES
        &&& self.interval_nanos == interval_for(self.speed_halves as int)
        &&& self.elapsed_nanos < self.interval_nanos
    }

    /// Speed multiplier 1: one step every `BASE_INTERVAL_NANOS`, no time built up.
    pub fn new() -> (r: GravityState)
        ensures
            r.wf(),
            r.speed_halves == INITIAL_SPEED_HALVES,
            r.interval_nanos == BASE_INTERVAL_NANOS,
            r.elapsed_nanos == 0,
    {
        GravityState {
            speed_halves: INITIAL_SPEED_HALVES,
            interval_nanos: BASE_INTERVAL_NANOS,
            elapsed_nanos: 0,
        }
    }

    /// Speed-up command: the multiplier grows by one half (up to `MAX_SPEED_HALVES`), the
    /// interval is recomputed from it, and the timer starts over from zero.
    pub fn increase_gravity(&mut self)
        requires
            old(self).wf(),
        ensures
            final(self).wf(),
            final(self).speed_halves == if old(self).speed_halves < MAX_SPEED_HALVES {
                old(self).speed_halves + 1
            } else {
                old(self).speed_halves as int
            },
            final(self).interval_nanos == interval_for(final(self).speed_halves as int),
            final(self).elapsed_nanos == 0,
    {
        if self.speed_halves < MAX_SPEED_HALVES {
            self.speed_halves = self.speed_halves + 1;
        }
        let interval = (2 * BASE_INTERVAL_NANOS) / self.speed_halves as u64;
        assert(interval >= 1) by (nonlinear_arith)
            requires
                interval == (2 * BASE_INTERVAL_NANOS) / self.speed_halves as int,
                1 <= self.speed_halves <= MAX_SPEED_HALVES,
        ;
        self.interval_nanos = interval;
        self.elapsed_nanos = 0;
    }

    /// Lets `delta_nanos` pass on the timer. Returns whether a step fell due; the time
    /// past the step carries over, wrapped to one interval.
    pub fn tick(&mut self, delta_nanos: u64) -> (fired: bool)
        requires
            old(self).wf(),
        ensures
            final(self).wf(),
            final(self).speed_halves == old(self).speed_halves,
            final(self).interval_nanos == old(self).interval_nanos,
            fired == (old(self).elapsed_nanos + delta_nanos >= old(self).interval_nanos),
            final(self).elapsed_nanos == (old(self).elapsed_nanos + delta_nanos) % (old(
                self,
            ).interval_nanos as int),
    {
        let interval = self.interval_nanos;
        let remaining = interval - self.elapsed_nanos;
        if delta_nanos >= remaining {
            let carried = delta_nanos - remaining;
            proof {
                lemma_mod_add_multiples_vanish(carried as int, interval as int);
            }
            self.elapsed_nanos = carried % interval;
            true
        } else {
            proof {
                lemma_small_mod((self.elapsed_nanos + delta_nanos) as nat, interval as nat);
            }
            self.elapsed_nanos = self.elapsed_nanos + delta_nanos;
            false
        }
    }
}

/// Row and activity of a falling piece after one gravity step: an active piece moves one
/// row down and lands once the row of its lowest block (`lowest` below the pivot)
/// reaches `rows - 1`; a landed piece stays as it is.
pub open spec fn gravity_step(row: int, active: bool, lowest: int, rows: int) -> (int, bool) {
    if active {
        (row + 1, !(row + 1 + lowest >= rows - 1))
    } else {
        (row, active)
    }
}

/// Row and activity after `n` gravity steps.
pub open spec fn gravity_steps(row: int, active: bool, lowest: int, rows: int, n: nat) -> (
    int,
    bool,
)
    decreases n,
{
    if n == 0 {
        (row, active)
    } else {
        let (r, a) = gravity_steps(row, active, lowest, rows, (n - 1) as nat);
        gravity_step(r, a, lowest, rows)
    }
}

/// A piece that starts above its landing row falls exactly one row per step and lands
/// on step `rows - 1 - lowest - row`; after that no step moves it.
pub proof fn lemma_fall_until_landing(row: int, lowest: int, rows: int, n: nat)
    requires
        row + lowest < rows - 1,
    ensures
        n < rows - 1 - lowest - row ==> gravity_steps(row, true, lowest, rows, n) == (
            row + n,
            true,
        ),
        n >= rows - 1 - lowest - row ==> gravity_steps(row, true, lowest, rows, n) == (
            rows - 1 - lowest,
            false,
        ),
    decreases n,
{
    if n > 0 {
        lemma_fall_until_landing(row, lowest, rows, (n - 1) as nat);
    }
}

/// Moving a piece one row down moves each of its blocks down the canvas by exactly one
/// block size and leaves its x unchanged: shifting the drawn blocks agrees with mapping
/// the new position again.
pub proof fn lemma_fall_shifts_blocks(
    offsets: Seq<SingleBlockOffset>,
    grid_canvas_position: CanvasOrigin,
    grid_position: GridPosition,
    fallen: GridPosition,
    block_size: BlockSize,
)
    requires
        fallen.col == grid_position.col,
        fallen.row == grid_position.row + 1,
    ensures
        transforms_of(offsets, grid_canvas_position, fallen, block_size).len() == offsets.len(),
        forall|i: int|
            0 <= i < offsets.len() ==> {
                &&& (#[trigger] transforms_of(offsets, grid_canvas_position, fallen, block_size)[i]).x
                    == transforms_of(offsets, grid_canvas_position, grid_position, block_size)[i].x
                &&& transforms_of(offsets, grid_canvas_position, fallen, block_size)[i].y
                    == transforms_of(offsets, grid_canvas_position, grid_position, block_size)[i].y
                    - block_size.0
            },
{
    assert forall|i: int| 0 <= i < offsets.len() implies {
        &&& (#[trigger] transforms_of(offsets, grid_canvas_position, fallen, block_size)[i]).x
            == transforms_of(offsets, grid_canvas_position, grid_position, block_size)[i].x
        &&& transforms_of(offsets, grid_canvas_position, fallen, block_size)[i].y
            == transforms_of(offsets, grid_canvas_position, grid_position, block_size)[i].y
            - block_size.0
    } by {
        lemma_translate_grid_position(
            offsets[i],
            grid_canvas_position,
            grid_position,
            fallen,
            block_size,
            0,
            1,
        );
    }
}

/// One gravity step of an active piece: it moves one row down, and stops being active
/// when its lowest block reaches the bottom row of the grid. Returns whether it landed.
pub fn fall(piece: &mut Piece, grid: &Grid) -> (landed: bool)
    requires
        old(piece).wf(),
        old(piece).active,
        old(piece).position.row < u32::MAX,
    ensures
        final(piece).wf(),
        final(piece).kind == old(piece).kind,
        final(piece).rotations == old(piece).rotations,
        final(piece).position.col == old(piece).position.col,
        (final(piece).position.row as int, final(piece).active) == gravity_step(
            old(piece).position.row as int,
            true,
            max_row(old(piece).current_offsets()),
            grid.rows as int,
        ),
        landed == !final(piece).active,
{
    piece.position.row = piece.position.row + 1;
    let offsets = piece.rotations.cur_offsets();
    proof {
        let d = piece.rotations.rotations_offsets;
        assert(d.dispositions@[piece.rotations.current.0 as int].blocks@.len() == d.block_count());
    }
    let lowest = offsets.lowest_row_offset().unwrap();
    let floor_row: i64 = piece.position.row as i64 + lowest as i64;
    let landed = floor_row >= grid.rows as i64 - 1;
    if landed {
        piece.active = false;
    }
    landed
}

/// One frame of gravity. While the game runs, `delta_nanos` passes on the timer; when a
/// step falls due an active piece falls one row. While it is paused nothing changes, the
/// timer included.
pub fn apply_gravity(
    piece: &mut Piece,
    game_state: &GameState,
    gravity: &mut GravityState,
    grid: &Grid,
    delta_nanos: u64,
) -> (r: GravityOutcome)
    requires
        old(piece).wf(),
        old(gravity).wf(),
        old(piece).active ==> old(piece).position.row < u32::MAX,
    ensures
        final(piece).wf(),
        final(gravity).wf(),
        game_state.0 == State::Paused ==> {
            &&& *final(gravity) == *old(gravity)
            &&& *final(piece) == *old(piece)
            &&& r == GravityOutcome::Waiting
        },
        game_state.0 == State::Running ==> {
            &&& final(gravity).speed_halves == old(gravity).speed_halves
            &&& final(gravity).interval_nanos == old(gravity).interval_nanos
            &&& final(gravity).elapsed_nanos == (old(gravity).elapsed_nanos + delta_nanos) % (old(
                gravity,
            ).interval_nanos as int)
        },
        (r == GravityOutcome::Waiting) ==> *final(piece) == *old(piece),
        r != GravityOutcome::Waiting <==> {
            &&& game_state.0 == State::Running
            &&& old(piece).active
            &&& old(gravity).elapsed_nanos + delta_nanos >= old(gravity).interval_nanos
        },
        r != GravityOutcome::Waiting ==> {
            &&& final(piece).kind == old(piece).kind
            &&& final(piece).rotations == old(piece).rotations
            &&& final(piece).position.col == old(piece).position.col
            &&& (final(piece).position.row as int, final(piece).active) == gravity_step(
                old(piece).position.row as int,
                true,
                max_row(old(piece).current_offsets()),
                grid.rows as int,
            )
            &&& (r == GravityOutcome::Landed) == !final(piece).active
        },
{
    if game_state.0 == State::Paused {
        return GravityOutcome::Waiting;
    }
    let fired = gravity.tick(delta_nanos);
    if !fired || !piece.active {
        return GravityOutcome::Waiting;
    }
    if fall(piece, grid) {
        GravityOutcome::Landed
    } else {
        GravityOutcome::Fell
    }
}

} // verus!
