use vstd::prelude::*;

use crate::block::BlockSize;
use crate::grid::{lemma_cells_times_block, CanvasPoint, Grid};

verus! {

/// Whether the cell lines of the grid are drawn.
#[derive(Debug, Clone, Copy, PartialEq, Eq, Structural)]
pub struct DebugLinesEnabled(pub bool);

/// Debug overlay command: switches the cell lines on or off.
pub fn toggle_debug_lines_enabled(enabled: &mut DebugLinesEnabled)
    ensures
        final(enabled).0 == !old(enabled).0,
{
    enabled.0 = !enabled.0;
}

/// The vertical line between grid columns `col - 1` and `col`, top to bottom.
pub open spec fn column_line(grid: Grid, block_size: BlockSize, col: int) -> (CanvasPoint, CanvasPoint) {
    let x = grid.position.x + col * block_size.0;
    (
        CanvasPoint { x: x as i64, y: grid.position.y as i64 },
        CanvasPoint { x: x as i64, y: (grid.position.y - grid.rows * block_size.0) as i64 },
    )
}

/// The horizontal line between grid rows `row - 1` and `row`, left to right.
pub open spec fn row_line(grid: Grid, block_size: BlockSize, row: int) -> (CanvasPoint, CanvasPoint) {
    let y = grid.position.y - row * block_size.0;
    (
        CanvasPoint { x: grid.position.x as i64, y: y as i64 },
        CanvasPoint { x: (grid.position.x + grid.cols * block_size.0) as i64, y: y as i64 },
    )
}

/// The inner cell lines of the grid: one per column boundary `1 .. cols`, then one per
/// row boundary `1 .. rows`.
pub open spec fn cell_lines(grid: Grid, block_size: BlockSize) -> Seq<(CanvasPoint, CanvasPoint)> {
    Seq::new((grid.cols - 1) as nat, |i: int| column_line(grid, block_size, i + 1)) + Seq::new(
        (grid.rows - 1) as nat,
        |i: int| row_line(grid, block_size, i + 1),
    )
}

/// The segments to draw for the debug overlay: the grid's inner cell lines while it is
/// enabled, nothing otherwise.
pub fn grid_debug_lines(
    enabled: &DebugLinesEnabled,
    grid: &Grid,
    block_size: &BlockSize,
) -> (r: Vec<(CanvasPoint, CanvasPoint)>)
    requires
        grid.wf(),
    ensures
        enabled.0 ==> r@ == cell_lines(*grid, *block_size),
        !enabled.0 ==> r@.len() == 0,
{
    let mut lines: Vec<(CanvasPoint, CanvasPoint)> = Vec::new();
    if !enabled.0 {
        return lines;
    }
    let ghost vertical = Seq::new(
        (grid.cols - 1) as nat,
        |i: int| column_line(*grid, *block_size, i + 1),
    );
    let ghost horizontal = Seq::new(
        (grid.rows - 1) as nat,
        |i: int| row_line(*grid, *block_size, i + 1),
    );
    let bs = block_size.0 as i64;
    let x0 = grid.position.x as i64;
    let y0 = grid.position.y as i64;
    proof {
        lemma_cells_times_block(grid.cols as int, block_size.0 as int);
        lemma_cells_times_block(grid.rows as int, block_size.0 as int);
    }
    let width = grid.cols as i64 * bs;
    let height = grid.rows as i64 * bs;
    let mut col: u32 = 1;
    while col < grid.cols
        invariant
            1 <= col <= grid.cols,
            lines@ == vertical.take(col - 1),
            bs == block_size.0,
            x0 == grid.position.x,
            y0 == grid.position.y,
            height == grid.rows * block_size.0,
            0 <= height <= u32::MAX * u16::MAX,
            grid.wf(),
            vertical == Seq::new(
                (grid.cols - 1) as nat,
                |i: int| column_line(*grid, *block_size, i + 1),
            ),
        decreases grid.cols - col,
    {
        proof {
            lemma_cells_times_block(col as int, block_size.0 as int);
        }
        let x = x0 + col as i64 * bs;
        lines.push((CanvasPoint { x, y: y0 }, CanvasPoint { x, y: y0 - height }));
        col = col + 1;
        assert(lines@ =~= vertical.take(col - 1));
    }
    assert(lines@ =~= vertical);
    let mut row: u32 = 1;
    while row < grid.rows
        invariant
            1 <= row <= grid.rows,
            lines@ == vertical + horizontal.take(row - 1),
            bs == block_size.0,
            x0 == grid.position.x,
            y0 == grid.position.y,
            width == grid.cols * block_size.0,
            0 <= width <= u32::MAX * u16::MAX,
            grid.wf(),
            horizontal == Seq::new(
                (grid.rows - 1) as nat,
                |i: int| row_line(*grid, *block_size, i + 1),
            ),
        decreases grid.rows - row,
    {
        proof {
            lemma_cells_times_block(row as int, block_size.0 as int);
        }
        let y = y0 - row as i64 * bs;
        lines.push((CanvasPoint { x: x0, y }, CanvasPoint { x: x0 + width, y }));
        row = row + 1;
        assert(lines@ =~= vertical + horizontal.take(row - 1));
    }
    assert(lines@ =~= vertical + horizontal);
    lines
}

} // verus!
