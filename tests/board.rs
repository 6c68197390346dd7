use falling_blocks::block::{BlockSize, SingleBlockOffset};
use falling_blocks::debug::{grid_debug_lines, toggle_debug_lines_enabled, DebugLinesEnabled};
use falling_blocks::grid::{spawn_grid, CanvasOrigin, CanvasPoint, Grid, GridPosition, InitialGridPosition};
use falling_blocks::util::block_transform;

#[test]
fn grid_position_from_initial() {
    let p = GridPosition::from(InitialGridPosition(5, 0));
    assert_eq!(p, GridPosition { col: 5, row: 0 });
}

#[test]
fn grid_needs_positive_extent() {
    let origin = CanvasOrigin { x: 0, y: 0 };
    assert!(Grid::new(0, 20, origin).is_none());
    assert!(Grid::new(10, 0, origin).is_none());
    assert_eq!(Grid::new(10, 20, origin).unwrap().rows, 20);
}

#[test]
fn grid_is_centred_in_window() {
    let grid = spawn_grid(1280, &BlockSize(30));
    assert_eq!(grid.cols, 10);
    assert_eq!(grid.rows, 20);
    assert_eq!(grid.position, CanvasOrigin { x: 490, y: -30 });
}

#[test]
fn grid_outline_spans_all_cells() {
    let grid = spawn_grid(800, &BlockSize(30));
    let outline = grid.outline(&BlockSize(30));
    assert_eq!(outline.top_left, CanvasOrigin { x: 250, y: -30 });
    assert_eq!(outline.width, 300);
    assert_eq!(outline.height, 600);
}

#[test]
fn block_transform_formula() {
    let origin = CanvasOrigin { x: 100, y: -30 };
    let offset = SingleBlockOffset { col: -1, row: 1, idx: 1 };
    let p = block_transform(&offset, &origin, &GridPosition { col: 5, row: 2 }, &BlockSize(30));
    assert_eq!(p, CanvasPoint { x: 100 + 4 * 30, y: -30 - 3 * 30 });
}

#[test]
fn block_transform_is_deterministic() {
    let origin = CanvasOrigin { x: 7, y: 9 };
    let offset = SingleBlockOffset { col: 1, row: -1, idx: 0 };
    let pos = GridPosition { col: 3, row: 4 };
    let a = block_transform(&offset, &origin, &pos, &BlockSize(25));
    let b = block_transform(&offset, &origin, &pos, &BlockSize(25));
    assert_eq!(a, b);
}

#[test]
fn block_transform_translates_with_position() {
    let origin = CanvasOrigin { x: 490, y: -30 };
    let offset = SingleBlockOffset { col: 0, row: 1, idx: 3 };
    let a = block_transform(&offset, &origin, &GridPosition { col: 5, row: 0 }, &BlockSize(30));
    let b = block_transform(&offset, &origin, &GridPosition { col: 7, row: 3 }, &BlockSize(30));
    assert_eq!(b.x - a.x, 2 * 30);
    assert_eq!(b.y - a.y, -3 * 30);
}

#[test]
fn block_transform_extreme_values() {
    let origin = CanvasOrigin { x: i32::MIN, y: i32::MAX };
    let offset = SingleBlockOffset { col: i32::MAX, row: i32::MAX, idx: 0 };
    let pos = GridPosition { col: u32::MAX, row: u32::MAX };
    let p = block_transform(&offset, &origin, &pos, &BlockSize(u16::MAX));
    let k = u32::MAX as i64 + i32::MAX as i64;
    assert_eq!(p.x, i32::MIN as i64 + k * u16::MAX as i64);
    assert_eq!(p.y, i32::MAX as i64 - k * u16::MAX as i64);
}

#[test]
fn debug_lines_toggle() {
    let mut enabled = DebugLinesEnabled(false);
    toggle_debug_lines_enabled(&mut enabled);
    assert_eq!(enabled, DebugLinesEnabled(true));
    toggle_debug_lines_enabled(&mut enabled);
    assert_eq!(enabled, DebugLinesEnabled(false));
}

#[test]
fn debug_lines_hidden_when_disabled() {
    let grid = spawn_grid(1280, &BlockSize(30));
    assert!(grid_debug_lines(&DebugLinesEnabled(false), &grid, &BlockSize(30)).is_empty());
}

#[test]
fn debug_lines_cover_inner_cell_boundaries() {
    let grid = spawn_grid(1280, &BlockSize(30));
    let lines = grid_debug_lines(&DebugLinesEnabled(true), &grid, &BlockSize(30));
    assert_eq!(lines.len(), 9 + 19);
    assert_eq!(lines[0], (CanvasPoint { x: 520, y: -30 }, CanvasPoint { x: 520, y: -630 }));
    assert_eq!(lines[8], (CanvasPoint { x: 760, y: -30 }, CanvasPoint { x: 760, y: -630 }));
    assert_eq!(lines[9], (CanvasPoint { x: 490, y: -60 }, CanvasPoint { x: 790, y: -60 }));
    assert_eq!(lines[27], (CanvasPoint { x: 490, y: -600 }, CanvasPoint { x: 790, y: -600 }));
}

#[test]
fn debug_lines_single_cell_grid() {
    let grid = Grid::new(1, 1, CanvasOrigin { x: 0, y: 0 }).unwrap();
    assert!(grid_debug_lines(&DebugLinesEnabled(true), &grid, &BlockSize(30)).is_empty());
}
