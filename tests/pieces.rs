use falling_blocks::block::{BlockSize, NBlockOffsets, SingleBlockOffset};
use falling_blocks::control::rotate_piece;
use falling_blocks::grid::{spawn_grid, CanvasOrigin, CanvasPoint, Grid, GridPosition, InitialGridPosition};
use falling_blocks::piece::{
    initial_spawn_t, render_active_piece, rotate_standard_piece, spawn_t, t, CurrentDisposition,
    PieceDispositions, PieceRotations, ShapeKind,
};
use falling_blocks::util::block_transform;

fn board() -> Grid {
    Grid::new(10, 20, CanvasOrigin { x: 490, y: -30 }).unwrap()
}

fn pairs(v: &[(i32, i32)]) -> Vec<(i32, i32)> {
    v.to_vec()
}

#[test]
fn single_block_offset_from_tuple() {
    let b = SingleBlockOffset::from((-1, 2, 3));
    assert_eq!(b, SingleBlockOffset { col: -1, row: 2, idx: 3 });
}

#[test]
fn block_offsets_are_indexed_by_position() {
    let offsets = NBlockOffsets::new(&pairs(&[(0, 0), (-1, 0), (1, 0), (0, 1)]));
    assert_eq!(offsets.len(), 4);
    for (i, b) in offsets.blocks.iter().enumerate() {
        assert_eq!(b.idx, i);
    }
    assert_eq!(offsets.blocks[3], SingleBlockOffset { col: 0, row: 1, idx: 3 });
}

#[test]
fn lowest_row_offset_is_the_largest_row() {
    let offsets = NBlockOffsets::new(&pairs(&[(0, 0), (0, -1), (0, 1), (1, 0)]));
    assert_eq!(offsets.lowest_row_offset(), Some(1));
    let up = NBlockOffsets::new(&pairs(&[(0, 0), (-1, 0), (1, 0), (0, -1)]));
    assert_eq!(up.lowest_row_offset(), Some(0));
    let empty = NBlockOffsets::new(&Vec::new());
    assert_eq!(empty.lowest_row_offset(), None);
}

#[test]
fn table_with_no_disposition_is_rejected() {
    assert!(PieceDispositions::from_table(&Vec::new()).is_none());
}

#[test]
fn table_with_empty_disposition_is_rejected() {
    assert!(PieceDispositions::from_table(&vec![Vec::new()]).is_none());
}

#[test]
fn table_with_mismatched_sizes_is_rejected() {
    let table = vec![pairs(&[(0, 0), (1, 0)]), pairs(&[(0, 0)])];
    assert!(PieceDispositions::from_table(&table).is_none());
}

#[test]
fn table_without_pivot_is_rejected() {
    let table = vec![pairs(&[(0, 0), (1, 0)]), pairs(&[(1, 1), (1, 0)])];
    assert!(PieceDispositions::from_table(&table).is_none());
}

#[test]
fn valid_table_is_accepted() {
    let table = vec![pairs(&[(1, 0), (0, 0)]), pairs(&[(0, 1), (0, 0)])];
    let d = PieceDispositions::from_table(&table).unwrap();
    assert_eq!(d.num_dispositions(), 2);
    assert_eq!(d.get(1).blocks[0], SingleBlockOffset { col: 0, row: 1, idx: 0 });
    assert_eq!(d.get(3).blocks[0], SingleBlockOffset { col: 0, row: 1, idx: 0 });
    assert_eq!(d.get(2).blocks[0], SingleBlockOffset { col: 1, row: 0, idx: 0 });
}

#[test]
fn t_shape_has_four_dispositions() {
    let shape = t();
    assert_eq!(shape.kind, ShapeKind::T);
    assert_eq!(shape.num_dispositions(), 4);
    let third: Vec<(i32, i32)> = shape.dispositions.get(2).blocks.iter().map(|b| (b.col, b.row)).collect();
    assert_eq!(third, vec![(0, 0), (-1, 0), (1, 0), (0, -1)]);
}

#[test]
fn rotating_four_times_returns_to_start() {
    let mut rotations = PieceRotations::new(t().dispositions);
    assert_eq!(rotations.rotation(), 0);
    let mut seen = Vec::new();
    for _ in 0..4 {
        rotations.rotate();
        seen.push(rotations.rotation());
    }
    assert_eq!(seen, vec![1, 2, 3, 0]);
    assert_eq!(rotations.cur_offsets().blocks[3], SingleBlockOffset { col: 0, row: 1, idx: 3 });
}

#[test]
fn rotate_standard_piece_wraps_and_maps_blocks() {
    let shape = t();
    let mut current = CurrentDisposition(3);
    let origin = CanvasOrigin { x: 490, y: -30 };
    let position = GridPosition { col: 5, row: 2 };
    let points = rotate_standard_piece(&shape.dispositions, &mut current, &position, &origin, &BlockSize(30));
    assert_eq!(current, CurrentDisposition(0));
    assert_eq!(
        points,
        vec![
            CanvasPoint { x: 640, y: -90 },
            CanvasPoint { x: 610, y: -90 },
            CanvasPoint { x: 670, y: -90 },
            CanvasPoint { x: 640, y: -120 },
        ]
    );
}

#[test]
fn spawned_t_matches_mapped_offsets() {
    let grid = spawn_grid(1280, &BlockSize(30));
    let piece = spawn_t(GridPosition { col: 5, row: 0 });
    assert!(piece.active);
    assert_eq!(piece.rotations.rotation(), 0);
    let points = render_active_piece(&piece, &grid, &BlockSize(30));
    let expected: Vec<CanvasPoint> = [(0, 0), (-1, 0), (1, 0), (0, 1)]
        .iter()
        .enumerate()
        .map(|(idx, &(col, row))| {
            block_transform(
                &SingleBlockOffset { col, row, idx },
                &grid.position,
                &GridPosition { col: 5, row: 0 },
                &BlockSize(30),
            )
        })
        .collect();
    assert_eq!(points, expected);
    assert_eq!(points[0], CanvasPoint { x: 640, y: -30 });
    assert_eq!(points[3], CanvasPoint { x: 640, y: -60 });
}

#[test]
fn initial_spawn_uses_configured_cell() {
    let piece = initial_spawn_t(&InitialGridPosition::configured());
    assert_eq!(piece.position, GridPosition { col: 5, row: 0 });
    assert_eq!(piece.kind, ShapeKind::T);
}

#[test]
fn landed_piece_is_not_rendered() {
    let mut piece = spawn_t(GridPosition { col: 5, row: 0 });
    piece.active = false;
    assert!(render_active_piece(&piece, &board(), &BlockSize(30)).is_empty());
}

#[test]
fn rotate_piece_turns_active_piece() {
    let grid = board();
    let mut piece = spawn_t(GridPosition { col: 5, row: 3 });
    let points = rotate_piece(&mut piece, &grid, &BlockSize(30)).unwrap();
    assert_eq!(piece.rotations.rotation(), 1);
    assert_eq!(points, piece.block_transforms(&grid, &BlockSize(30)));
    assert_eq!(points[3], CanvasPoint { x: 490 + 6 * 30, y: -30 - 3 * 30 });
}

#[test]
fn rotate_piece_ignores_landed_piece() {
    let mut piece = spawn_t(GridPosition { col: 5, row: 3 });
    piece.active = false;
    assert!(rotate_piece(&mut piece, &board(), &BlockSize(30)).is_none());
    assert_eq!(piece.rotations.rotation(), 0);
}

#[test]
fn rotation_may_leave_the_grid() {
    let grid = board();
    let mut piece = spawn_t(GridPosition { col: 0, row: 0 });
    rotate_piece(&mut piece, &grid, &BlockSize(30)).unwrap();
    let points = rotate_piece(&mut piece, &grid, &BlockSize(30)).unwrap();
    assert_eq!(points[3], CanvasPoint { x: 490, y: 0 });
    assert_eq!(points[1], CanvasPoint { x: 460, y: -30 });
}
