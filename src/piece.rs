use vstd::prelude::*;

use crate::block::{has_pivot, offsets_of, BlockSize, NBlockOffsets, SingleBlockOffset};
use crate::grid::{CanvasOrigin, CanvasPoint, Grid, GridPosition, InitialGridPosition};
use crate::util::{block_transform, map_to_canvas};
use vstd::arithmetic::div_mod::{
    lemma_add_mod_noop_right, lemma_mod_add_multiples_vanish, lemma_small_mod,
};

verus! {

/// Whether a table of `(col, row)` offset lists can describe the rotations of a piece:
/// at least one disposition, every disposition with the same positive number of
/// blocks, and each holding the pivot `(0, 0)`.
pub open spec fn valid_table(t: Seq<Seq<(i32, i32)>>) -> bool {
    &&& t.len() > 0
    &&& t[0].len() > 0
    &&& forall|i: int| 0 <= i < t.len() ==> (#[trigger] t[i]).len() == t[0].len()
    &&& forall|i: int| 0 <= i < t.len() ==> holds_origin(#[trigger] t[i])
}

/// Whether the pair `(0, 0)` occurs in `s`.
pub open spec fn holds_origin(s: Seq<(i32, i32)>) -> bool {
    exists|j: int| 0 <= j < s.len() && s[j] == (0i32, 0i32)
}

/// Every rotation state (disposition) of one piece shape.
pub struct PieceDispositions {
    pub dispositions: Vec<NBlockOffsets>,
}

impl PieceDispositions {
    /// The offsets of disposition `i`.
    pub open spec fn offsets(&self, i: int) -> Seq<SingleBlockOffset> {
        self.dispositions@[i].blocks@
    }

    /// Number of dispositions.
    pub open spec fn count(&self) -> int {
        self.dispositions@.len() as int
    }

    /// Number of blocks of the piece.
    pub open spec fn block_count(&self) -> int {
        self.offsets(0).len() as int
    }

    pub open spec fn wf(&self) -> bool {
        &&& self.count() > 0
        &&& self.block_count() > 0
        &&& forall|i: int|
            0 <= i < self.count() ==> {
                &&& (#[trigger] self.dispositions@[i]).wf()
                &&& self.dispositions@[i].blocks@.len() == self.block_count()
                &&& has_pivot(self.dispositions@[i].blocks@)
            }
    }

    /// Builds the dispositions that `table` lists, each block tagged with its index;
    /// `None` when the table is empty, a disposition has no block, two dispositions
    /// differ in block count, or a disposition lacks the pivot `(0, 0)`.
    pub fn from_table(table: &Vec<Vec<(i32, i32)>>) -> (r: Option<PieceDispositions>)
        ensures
            r is Some <==> valid_table(table.deep_view()),
            r matches Some(d) ==> {
                &&& d.wf()
                &&& d.count() == table@.len()
                &&& forall|i: int|
                    0 <= i < d.count() ==> #[trigger] d.offsets(i) == offsets_of(table@[i]@)
            },
    {
        let ghost t = table.deep_view();
        if table.len() == 0 {
            return None;
        }
        let n = table[0].len();
        if n == 0 {
            return None;
        }
        let mut dispositions: Vec<NBlockOffsets> = Vec::new();
        let mut i: usize = 0;
        while i < table.len()
            invariant
                t == table.deep_view(),
                n == t[0].len(),
                n > 0,
                i <= table@.len(),
                dispositions@.len() == i,
                forall|k: int| 0 <= k < i ==> (#[trigger] t[k]).len() == n,
                forall|k: int| 0 <= k < i ==> holds_origin(#[trigger] t[k]),
                forall|k: int|
                    0 <= k < i ==> {
                        &&& (#[trigger] dispositions@[k]).wf()
                        &&& dispositions@[k].blocks@ == offsets_of(table@[k]@)
                        &&& dispositions@[k].blocks@.len() == n
                        &&& has_pivot(dispositions@[k].blocks@)
                    },
            decreases table@.len() - i,
        {
            let row = &table[i];
            assert(row@ == t[i as int]);
            if row.len() != n {
                return None;
            }
            let mut j: usize = 0;
            let mut found = false;
            while j < row.len() && !found
                invariant
                    j <= row@.len(),
                    found ==> j > 0 && row@[j - 1] == (0i32, 0i32),
                    !found ==> forall|k: int| 0 <= k < j ==> row@[k] != (0i32, 0i32),
                decreases row@.len() - j,
            {
                let (col, rw) = row[j];
                if col == 0 && rw == 0 {
                    found = true;
                }
                j += 1;
            }
            if !found {
                return None;
            }
            assert(t[i as int][j - 1] == (0i32, 0i32));
            assert(holds_origin(t[i as int]));
            let offsets = NBlockOffsets::new(row);
            assert(offsets.blocks@[j - 1].col == 0 && offsets.blocks@[j - 1].row == 0);
            dispositions.push(offsets);
            i += 1;
        }
        let d = PieceDispositions { dispositions };
        assert(d.block_count() == n);
        Some(d)
    }

    /// Number of dispositions.
    pub fn num_dispositions(&self) -> (r: usize)
        ensures
            r == self.count(),
    {
        self.dispositions.len()
    }

    /// The disposition with the given number; numbers wrap around the table.
    pub fn get(&self, disposition: usize) -> (r: &NBlockOffsets)
        requires
            self.wf(),
        ensures
            *r == self.dispositions@[(disposition as int) % self.count()],
    {
        &self.dispositions[disposition % self.dispositions.len()]
    }
}

/// The shapes a piece can have.
#[derive(Debug, Clone, Copy, PartialEq, Eq, Structural)]
pub enum ShapeKind {
    T,
}

/// A piece shape: its kind and its dispositions.
pub struct ShapeData {
    pub dispositions: PieceDispositions,
    pub kind: ShapeKind,
}

impl ShapeData {
    /// Number of dispositions of the shape.
    pub fn num_dispositions(&self) -> (r: usize)
        ensures
            r == self.dispositions.count(),
    {
        self.dispositions.num_dispositions()
    }
}

/// Offsets of the T shape in each of its four dispositions, pivot first.
pub open spec fn t_table() -> Seq<Seq<(i32, i32)>> {
    seq![
        seq![(0i32, 0i32), (-1i32, 0i32), (1i32, 0i32), (0i32, 1i32)],
        seq![(0i32, 0i32), (0i32, -1i32), (0i32, 1i32), (1i32, 0i32)],
        seq![(0i32, 0i32), (-1i32, 0i32), (1i32, 0i32), (0i32, -1i32)],
        seq![(0i32, 0i32), (0i32, -1i32), (0i32, 1i32), (-1i32, 0i32)],
    ]
}

/// The T shape.
pub fn t() -> (r: ShapeData)
    ensures
        r.kind == ShapeKind::T,
        r.dispositions.wf(),
        r.dispositions.count() == 4,
        forall|i: int| 0 <= i < 4 ==> #[trigger] r.dispositions.offsets(i) == offsets_of(t_table()[i]),
{
    let table: Vec<Vec<(i32, i32)>> = vec![
        vec![(0i32, 0i32), (-1i32, 0i32), (1i32, 0i32), (0i32, 1i32)],
        vec![(0i32, 0i32), (0i32, -1i32), (0i32, 1i32), (1i32, 0i32)],
        vec![(0i32, 0i32), (-1i32, 0i32), (1i32, 0i32), (0i32, -1i32)],
        vec![(0i32, 0i32), (0i32, -1i32), (0i32, 1i32), (-1i32, 0i32)],
    ];
    proof {
        let tv = table.deep_view();
        assert(tv[0] =~= t_table()[0]);
        assert(tv[1] =~= t_table()[1]);
        assert(tv[2] =~= t_table()[2]);
        assert(tv[3] =~= t_table()[3]);
        assert(tv =~= t_table());
        assert forall|i: int| 0 <= i < tv.len() implies holds_origin(#[trigger] tv[i]) by {
            assert(tv[i][0] == (0i32, 0i32));
        }
    }
    let dispositions = PieceDispositions::from_table(&table).unwrap();
    ShapeData { dispositions, kind: ShapeKind::T }
}

/// The disposition that follows `current` in a table of `count` dispositions.
pub open spec fn next_disposition(current: int, count: int) -> int {
    (current + 1) % count
}

/// The disposition reached from `current` after `n` rotations.
pub open spec fn disposition_after(current: int, count: int, n: nat) -> int
    decreases n,
{
    if n == 0 {
        current
    } else {
        next_disposition(disposition_after(current, count, (n - 1) as nat), count)
    }
}

proof fn lemma_disposition_after(current: int, count: int, n: nat)
    requires
        0 <= current < count,
    ensures
        disposition_after(current, count, n) == (current + n) % count,
    decreases n,
{
    if n == 0 {
        lemma_small_mod(current as nat, count as nat);
    } else {
        lemma_disposition_after(current, count, (n - 1) as nat);
        lemma_add_mod_noop_right(1, current + n - 1, count);
    }
}

/// Rotating a piece as many times as its shape has dispositions brings it back to the
/// disposition it started from.
pub proof fn lemma_full_rotation_cycle(current: int, count: int)
    requires
        0 <= current < count,
    ensures
        disposition_after(current, count, count as nat) == current,
{
    lemma_disposition_after(current, count, count as nat);
    lemma_mod_add_multiples_vanish(current, count);
    lemma_small_mod(current as nat, count as nat);
}

/// Number of the disposition a piece currently shows.
#[derive(Debug, Clone, Copy, PartialEq, Eq, Structural)]
pub struct CurrentDisposition(pub usize);

/// Canvas points of every block of a disposition whose pivot stands at `grid_position`,
/// by block index.
pub open spec fn transforms_of(
    offsets: Seq<SingleBlockOffset>,
    grid_canvas_position: CanvasOrigin,
    grid_position: GridPosition,
    block_size: BlockSize,
) -> Seq<CanvasPoint> {
    Seq::new(
        offsets.len(),
        |i: int| map_to_canvas(offsets[i], grid_canvas_position, grid_position, block_size),
    )
}

/// Maps every block of `offsets` to its canvas point.
pub fn piece_transforms(
    offsets: &NBlockOffsets,
    grid_canvas_position: &CanvasOrigin,
    grid_position: &GridPosition,
    block_size: &BlockSize,
) -> (r: Vec<CanvasPoint>)
    ensures
        r@ == transforms_of(offsets.blocks@, *grid_canvas_position, *grid_position, *block_size),
{
    let mut points: Vec<CanvasPoint> = Vec::new();
    let mut i: usize = 0;
    while i < offsets.blocks.len()
        invariant
            i <= offsets.blocks@.len(),
            points@ == transforms_of(
                offsets.blocks@,
                *grid_canvas_position,
                *grid_position,
                *block_size,
            ).take(i as int),
        decreases offsets.blocks@.len() - i,
    {
        let point = block_transform(&offsets.blocks[i], grid_canvas_position, grid_position, block_size);
        points.push(point);
        i += 1;
        assert(points@ =~= transforms_of(
            offsets.blocks@,
            *grid_canvas_position,
            *grid_position,
            *block_size,
        ).take(i as int));
    }
    assert(points@ =~= transforms_of(
        offsets.blocks@,
        *grid_canvas_position,
        *grid_position,
        *block_size,
    ));
    points
}

/// Advances `current_disposition` to the next disposition of the table, wrapping after
/// the last, and returns the canvas point of every block in the new disposition.
pub fn rotate_standard_piece(
    dispositions: &PieceDispositions,
    current_disposition: &mut CurrentDisposition,
    grid_position: &GridPosition,
    grid_canvas_position: &CanvasOrigin,
    block_size: &BlockSize,
) -> (r: Vec<CanvasPoint>)
    requires
        dispositions.wf(),
        old(current_disposition).0 < dispositions.count(),
    ensures
        final(current_disposition).0 == next_disposition(
            old(current_disposition).0 as int,
            dispositions.count(),
        ),
        final(current_disposition).0 < dispositions.count(),
        r@ == transforms_of(
            dispositions.offsets(final(current_disposition).0 as int),
            *grid_canvas_position,
            *grid_position,
            *block_size,
        ),
{
    let count = dispositions.num_dispositions();
    *current_disposition = CurrentDisposition((current_disposition.0 + 1) % count);
    let offsets = dispositions.get(current_disposition.0);
    proof {
        lemma_small_mod(current_disposition.0 as nat, count as nat);
    }
    piece_transforms(offsets, grid_canvas_position, grid_position, block_size)
}

/// A shape's dispositions together with the one currently shown.
pub struct PieceRotations {
    pub rotations_offsets: PieceDispositions,
    pub current: CurrentDisposition,
}

impl PieceRotations {
    pub open spec fn wf(&self) -> bool {
        self.rotations_offsets.wf() && self.current.0 < self.rotations_offsets.count()
    }

    /// Starts at disposition 0.
    pub fn new(rotations_offsets: PieceDispositions) -> (r: PieceRotations)
        ensures
            r.rotations_offsets == rotations_offsets,
            r.current.0 == 0,
            rotations_offsets.wf() ==> r.wf(),
    {
        PieceRotations { rotations_offsets, current: CurrentDisposition(0) }
    }

    /// The offsets of the disposition currently shown.
    pub fn cur_offsets(&self) -> (r: &NBlockOffsets)
        requires
            self.wf(),
        ensures
            r.blocks@ == self.rotations_offsets.offsets(self.current.0 as int),
            r.wf(),
    {
        &self.rotations_offsets.dispositions[self.current.0]
    }

    /// Moves to the next disposition, wrapping after the last.
    pub fn rotate(&mut self)
        requires
            old(self).wf(),
        ensures
            final(self).wf(),
            final(self).rotations_offsets == old(self).rotations_offsets,
            final(self).current.0 == next_disposition(
                old(self).current.0 as int,
                old(self).rotations_offsets.count(),
            ),
    {
        let count = self.rotations_offsets.num_dispositions();
        self.current = CurrentDisposition((self.current.0 + 1) % count);
    }

    /// Number of the disposition currently shown.
    pub fn rotation(&self) -> (r: usize)
        ensures
            r == self.current.0,
    {
        self.current.0
    }
}

/// A piece in play: its shape, rotation state and grid position. An inactive piece has
/// landed and takes no more gravity or rotation.
pub struct Piece {
    pub kind: ShapeKind,
    pub rotations: PieceRotations,
    pub position: GridPosition,
    pub active: bool,
}

impl Piece {
    pub open spec fn wf(&self) -> bool {
        self.rotations.wf()
    }

    /// The offsets of the disposition the piece currently shows.
    pub open spec fn current_offsets(&self) -> Seq<SingleBlockOffset> {
        self.rotations.rotations_offsets.offsets(self.rotations.current.0 as int)
    }

    /// Canvas point of every block of the piece, by block index.
    pub fn block_transforms(&self, grid: &Grid, block_size: &BlockSize) -> (r: Vec<CanvasPoint>)
        requires
            self.wf(),
        ensures
            r@ == transforms_of(self.current_offsets(), grid.position, self.position, *block_size),
    {
        piece_transforms(self.rotations.cur_offsets(), &grid.position, &self.position, block_size)
    }
}

/// A new active T piece at `grid_position`, in disposition 0.
pub fn spawn_t(grid_position: GridPosition) -> (r: Piece)
    ensures
        r.wf(),
        r.kind == ShapeKind::T,
        r.active,
        r.position == grid_position,
        r.rotations.current.0 == 0,
        r.rotations.rotations_offsets.count() == 4,
        forall|i: int|
            0 <= i < 4 ==> #[trigger] r.rotations.rotations_offsets.offsets(i) == offsets_of(
                t_table()[i],
            ),
{
    let shape = t();
    Piece {
        kind: shape.kind,
        rotations: PieceRotations::new(shape.dispositions),
        position: grid_position,
        active: true,
    }
}

/// The first piece of the game: a T at the configured spawn cell.
pub fn initial_spawn_t(initial_grid_position: &InitialGridPosition) -> (r: Piece)
    ensures
        r.wf(),
        r.kind == ShapeKind::T,
        r.active,
        r.position.col == initial_grid_position.0,
        r.position.row == initial_grid_position.1,
        r.rotations.current.0 == 0,
        r.current_offsets() == offsets_of(t_table()[0]),
{
    let r = spawn_t(GridPosition::from(*initial_grid_position));
    assert(r.rotations.rotations_offsets.offsets(0) == offsets_of(t_table()[0]));
    r
}

/// Canvas points of the blocks to draw for `piece`: all of them while it is active,
/// none once it has landed.
pub fn render_active_piece(
    piece: &Piece,
    grid: &Grid,
    block_size: &BlockSize,
) -> (r: Vec<CanvasPoint>)
    requires
        piece.wf(),
    ensures
        piece.active ==> r@ == transforms_of(
            piece.current_offsets(),
            grid.position,
            piece.position,
            *block_size,
        ),
        !piece.active ==> r@.len() == 0,
{
    if piece.active {
        piece.block_transforms(grid, block_size)
    } else {
        Vec::new()
    }
}

} // verus!
