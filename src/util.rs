use vstd::prelude::*;

use crate::block::{BlockSize, SingleBlockOffset};
use crate::grid::{CanvasOrigin, CanvasPoint, GridPosition};

verus! {

/// Canvas x of the cell in grid column `col`.
pub open spec fn canvas_x(origin: CanvasOrigin, col: int, block_size: BlockSize) -> int {
    origin.x + col * block_size.0
}

/// Canvas y of the cell in grid row `row`: rows grow downward, canvas y grows upward.
pub open spec fn canvas_y(origin: CanvasOrigin, row: int, block_size: BlockSize) -> int {
    origin.y - row * block_size.0
}

/// Where a block is drawn: its offset added to the pivot's grid cell, scaled by the
/// block size and placed relative to the grid origin.
pub open spec fn map_to_canvas(
    block_offset: SingleBlockOffset,
    grid_canvas_position: CanvasOrigin,
    grid_position: GridPosition,
    block_size: BlockSize,
) -> CanvasPoint {
    CanvasPoint {
        x: canvas_x(
            grid_canvas_position,
            grid_position.col + block_offset.col,
            block_size,
        ) as i64,
        y: canvas_y(
            grid_canvas_position,
            grid_position.row + block_offset.row,
            block_size,
        ) as i64,
    }
}

/// A grid coordinate plus an offset, times a block size, plus an origin, fits `i64`.
proof fn lemma_canvas_bounds(origin: int, cell: int, offset: int, block: int)
    requires
        i32::MIN <= origin <= i32::MAX,
        0 <= cell <= u32::MAX,
        i32::MIN <= offset <= i32::MAX,
        0 <= block <= u16::MAX,
    ensures
        i64::MIN < origin + (cell + offset) * block < i64::MAX,
        i64::MIN < origin - (cell + offset) * block < i64::MAX,
{
    let k = cell + offset;
    assert(k * block <= 0x2_0000_0000 * 0x1_0000) by (nonlinear_arith)
        requires
            -0x8000_0000 <= k <= 0x1_8000_0000,
            0 <= block <= 0xffff,
    ;
    assert(k * block >= -0x8000_0000 * 0xffff) by (nonlinear_arith)
        requires
            -0x8000_0000 <= k,
            0 <= block <= 0xffff,
    ;
}

/// The canvas point of one block of a piece whose pivot stands at `grid_position`.
pub fn block_transform(
    block_offset: &SingleBlockOffset,
    grid_canvas_position: &CanvasOrigin,
    grid_position: &GridPosition,
    block_size: &BlockSize,
) -> (r: CanvasPoint)
    ensures
        r.x == canvas_x(
            *grid_canvas_position,
            grid_position.col + block_offset.col,
            *block_size,
        ),
        r.y == canvas_y(
            *grid_canvas_position,
            grid_position.row + block_offset.row,
            *block_size,
        ),
        r == map_to_canvas(*block_offset, *grid_canvas_position, *grid_position, *block_size),
{
    proof {
        lemma_canvas_bounds(
            grid_canvas_position.x as int,
            grid_position.col as int,
            block_offset.col as int,
            block_size.0 as int,
        );
        lemma_canvas_bounds(
            grid_canvas_position.y as int,
            grid_position.row as int,
            block_offset.row as int,
            block_size.0 as int,
        );
    }
    let col = grid_position.col as i64 + block_offset.col as i64;
    let row = grid_position.row as i64 + block_offset.row as i64;
    let x = grid_canvas_position.x as i64 + col * block_size.0 as i64;
    let y = grid_canvas_position.y as i64 - row * block_size.0 as i64;
    CanvasPoint { x, y }
}

/// Moving the pivot by `(d_col, d_row)` cells moves every block's canvas point by
/// `d_col * block_size` along x and by `-d_row * block_size` along y.
pub proof fn lemma_translate_grid_position(
    block_offset: SingleBlockOffset,
    grid_canvas_position: CanvasOrigin,
    grid_position: GridPosition,
    moved: GridPosition,
    block_size: BlockSize,
    d_col: int,
    d_row: int,
)
    requires
        moved.col == grid_position.col + d_col,
        moved.row == grid_position.row + d_row,
    ensures
        map_to_canvas(block_offset, grid_canvas_position, moved, block_size).x as int
            == map_to_canvas(block_offset, grid_canvas_position, grid_position, block_size).x
            + d_col * block_size.0,
        map_to_canvas(block_offset, grid_canvas_position, moved, block_size).y as int
            == map_to_canvas(block_offset, grid_canvas_position, grid_position, block_size).y
            - d_row * block_size.0,
{
    lemma_canvas_bounds(
        grid_canvas_position.x as int,
        grid_position.col as int,
        block_offset.col as int,
        block_size.0 as int,
    );
    lemma_canvas_bounds(
        grid_canvas_position.y as int,
        grid_position.row as int,
        block_offset.row as int,
        block_size.0 as int,
    );
    lemma_canvas_bounds(
        grid_canvas_position.x as int,
        moved.col as int,
        block_offset.col as int,
        block_size.0 as int,
    );
    lemma_canvas_bounds(
        grid_canvas_position.y as int,
        moved.row as int,
        block_offset.row as int,
        block_size.0 as int,
    );
    let b = block_size.0 as int;
    assert((grid_position.col + d_col + block_offset.col) * b == (grid_position.col
        + block_offset.col) * b + d_col * b) by (nonlinear_arith);
    assert((grid_position.row + d_row + block_offset.row) * b == (grid_position.row
        + block_offset.row) * b + d_row * b) by (nonlinear_arith);
}

/// The canvas point is a function of the inputs alone: equal inputs map to equal points.
pub proof fn lemma_map_to_canvas_deterministic(
    a: SingleBlockOffset,
    b: SingleBlockOffset,
    origin_a: CanvasOrigin,
    origin_b: CanvasOrigin,
    position_a: GridPosition,
    position_b: GridPosition,
    size_a: BlockSize,
    size_b: BlockSize,
)
    requires
        a == b,
        origin_a == origin_b,
        position_a == position_b,
        size_a == size_b,
    ensures
        map_to_canvas(a, origin_a, position_a, size_a) == map_to_canvas(
            b,
            origin_b,
            position_b,
            size_b,
        ),
{
}

} // verus!
