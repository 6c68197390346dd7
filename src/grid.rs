use vstd::prelude::*;

use crate::block::BlockSize;

verus! {

/// Number of columns of the playing field.
pub const GRID_COLS: u32 = 10;

/// Number of rows of the playing field.
pub const GRID_ROWS: u32 = 20;

/// Column of the grid position at which pieces appear.
pub const SPAWN_COL: u32 = 5;

/// Row of the grid position at which pieces appear.
pub const SPAWN_ROW: u32 = 0;

/// Grid position, as column then row, at which pieces appear.
#[derive(Debug, Clone, Copy, PartialEq, Eq, Structural)]
pub struct InitialGridPosition(pub u32, pub u32);

impl InitialGridPosition {
    /// The configured spawn cell.
    pub fn configured() -> (r: InitialGridPosition)
        ensures
            r.0 == SPAWN_COL,
            r.1 == SPAWN_ROW,
    {
        InitialGridPosition(SPAWN_COL, SPAWN_ROW)
    }
}

/// Cell of the grid at which the pivot of a piece stands; rows grow downward.
#[derive(Debug, Clone, Copy, PartialEq, Eq, Structural)]
pub struct GridPosition {
    pub col: u32,
    pub row: u32,
}

impl From<InitialGridPosition> for GridPosition {
    fn from(value: InitialGridPosition) -> (r: GridPosition) {
        GridPosition { col: value.0, row: value.1 }
    }
}

impl vstd::std_specs::convert::FromSpecImpl<InitialGridPosition> for GridPosition {
    open spec fn obeys_from_spec() -> bool {
        true
    }

    open spec fn from_spec(v: InitialGridPosition) -> GridPosition {
        GridPosition { col: v.0, row: v.1 }
    }
}

/// Canvas point at which the top-left corner of the grid is drawn; y grows upward.
#[derive(Debug, Clone, Copy, PartialEq, Eq, Structural)]
pub struct CanvasOrigin {
    pub x: i32,
    pub y: i32,
}

/// A point of the canvas; y grows upward.
#[derive(Debug, Clone, Copy, PartialEq, Eq, Structural)]
pub struct CanvasPoint {
    pub x: i64,
    pub y: i64,
}

/// The playing field: its extent in cells and where it is drawn.
#[derive(Debug, Clone, Copy, PartialEq, Eq, Structural)]
pub struct Grid {
    pub cols: u32,
    pub rows: u32,
    pub position: CanvasOrigin,
}

/// Outline of the board: its top-left corner and its size in canvas units.
#[derive(Debug, Clone, Copy, PartialEq, Eq, Structural)]
pub struct GridOutline {
    pub top_left: CanvasOrigin,
    pub width: u64,
    pub height: u64,
}

impl Grid {
    pub open spec fn wf(&self) -> bool {
        self.cols > 0 && self.rows > 0
    }

    /// A grid of the given extent anchored at `position`; `None` when either extent is zero.
    pub fn new(cols: u32, rows: u32, position: CanvasOrigin) -> (r: Option<Grid>)
        ensures
            r is Some <==> cols > 0 && rows > 0,
            r matches Some(g) ==> g.wf() && g.cols == cols && g.rows == rows && g.position
                == position,
    {
        if cols > 0 && rows > 0 {
            Some(Grid { cols, rows, position })
        } else {
            None
        }
    }

    /// Board outline: the grid is `cols * block_size` wide and `rows * block_size` high.
    pub fn outline(&self, block_size: &BlockSize) -> (r: GridOutline)
        ensures
            r.top_left == self.position,
            r.width == self.cols as int * block_size.0 as int,
            r.height == self.rows as int * block_size.0 as int,
    {
        proof {
            lemma_cells_times_block(self.cols as int, block_size.0 as int);
            lemma_cells_times_block(self.rows as int, block_size.0 as int);
        }
        let width = self.cols as u64 * block_size.0 as u64;
        let height = self.rows as u64 * block_size.0 as u64;
        GridOutline { top_left: self.position, width, height }
    }
}

/// A count of cells times a block size stays far below the range of `u64`.
pub proof fn lemma_cells_times_block(cells: int, block: int)
    requires
        0 <= cells <= u32::MAX,
        0 <= block <= u16::MAX,
    ensures
        0 <= cells * block <= u32::MAX * u16::MAX,
{
    assert(0 <= cells * block <= u32::MAX * u16::MAX) by (nonlinear_arith)
        requires
            0 <= cells <= u32::MAX,
            0 <= block <= u16::MAX,
    ;
}

/// Canvas x of the grid's left edge for a window `window_width` wide: the grid is centred.
pub open spec fn centred_origin_x(window_width: int, cols: int, block_size: int) -> int {
    window_width / 2 - (cols * block_size) / 2
}

/// The board: `GRID_COLS` by `GRID_ROWS` cells, centred horizontally in the window
/// and one block below its top edge.
pub fn spawn_grid(window_width: u32, block_size: &BlockSize) -> (r: Grid)
    ensures
        r.wf(),
        r.cols == GRID_COLS,
        r.rows == GRID_ROWS,
        r.position.x == centred_origin_x(window_width as int, GRID_COLS as int, block_size.0 as int),
        r.position.y == -(block_size.0 as int),
{
    let grid_width: u32 = GRID_COLS * block_size.0 as u32;
    let x: i32 = (window_width / 2) as i32 - (grid_width / 2) as i32;
    let y: i32 = -(block_size.0 as i32);
    Grid { cols: GRID_COLS, rows: GRID_ROWS, position: CanvasOrigin { x, y } }
}

} // verus!
