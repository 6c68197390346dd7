use vstd::prelude::*;

verus! {

/// Side of one square block, in canvas units.
#[derive(Debug, Clone, Copy, PartialEq, Eq, Structural)]
pub struct BlockSize(pub u16);

/// Offset of one block relative to the pivot of the piece it belongs to.
#[derive(Debug, Clone, Copy, PartialEq, Eq, Structural)]
pub struct SingleBlockOffset {
    pub col: i32,
    pub row: i32,
    /// Index of the block within the piece it composes.
    pub idx: usize,
}

impl From<(i32, i32, usize)> for SingleBlockOffset {
    fn from(value: (i32, i32, usize)) -> (r: SingleBlockOffset) {
        SingleBlockOffset { col: value.0, row: value.1, idx: value.2 }
    }
}

impl vstd::std_specs::convert::FromSpecImpl<(i32, i32, usize)> for SingleBlockOffset {
    open spec fn obeys_from_spec() -> bool {
        true
    }

    open spec fn from_spec(v: (i32, i32, usize)) -> SingleBlockOffset {
        SingleBlockOffset { col: v.0, row: v.1, idx: v.2 }
    }
}

/// The offsets that `pairs` describe, each tagged with its position as block index.
pub open spec fn offsets_of(pairs: Seq<(i32, i32)>) -> Seq<SingleBlockOffset> {
    Seq::new(
        pairs.len(),
        |i: int| SingleBlockOffset { col: pairs[i].0, row: pairs[i].1, idx: i as usize },
    )
}

/// Whether the offset sequence holds the pivot block `(0, 0)`.
pub open spec fn has_pivot(s: Seq<SingleBlockOffset>) -> bool {
    exists|j: int| 0 <= j < s.len() && s[j].col == 0 && s[j].row == 0
}

/// The largest row among the offsets (the block nearest the floor); zero when empty.
pub open spec fn max_row(s: Seq<SingleBlockOffset>) -> int
    decreases s.len(),
{
    if s.len() == 0 {
        0
    } else if s.len() == 1 {
        s[0].row as int
    } else {
        let m = max_row(s.drop_last());
        if s.last().row > m {
            s.last().row as int
        } else {
            m
        }
    }
}

/// `max_row` is the row of one of the offsets, and no offset lies below it.
pub proof fn lemma_max_row(s: Seq<SingleBlockOffset>)
    requires
        s.len() > 0,
    ensures
        exists|j: int| 0 <= j < s.len() && s[j].row == max_row(s),
        forall|j: int| 0 <= j < s.len() ==> s[j].row <= max_row(s),
    decreases s.len(),
{
    if s.len() > 1 {
        lemma_max_row(s.drop_last());
        let m = max_row(s.drop_last());
        let w = choose|j: int| 0 <= j < s.drop_last().len() && s.drop_last()[j].row == m;
        if s.last().row > m {
            assert(s[s.len() - 1].row == max_row(s));
        } else {
            assert(s[w].row == max_row(s));
        }
        assert forall|j: int| 0 <= j < s.len() implies s[j].row <= max_row(s) by {
            if j < s.len() - 1 {
                assert(s[j] == s.drop_last()[j]);
            }
        }
    } else {
        assert(s[0].row == max_row(s));
    }
}

/// The offsets of every block of a piece in one disposition.
pub struct NBlockOffsets {
    pub blocks: Vec<SingleBlockOffset>,
}

impl NBlockOffsets {
    /// Each block's index is its position in `blocks`.
    pub open spec fn wf(&self) -> bool {
        forall|i: int| 0 <= i < self.blocks@.len() ==> #[trigger] self.blocks@[i].idx == i
    }

    /// Tags each `(col, row)` pair with its position as block index.
    pub fn new(positions: &Vec<(i32, i32)>) -> (r: NBlockOffsets)
        ensures
            r.wf(),
            r.blocks@ == offsets_of(positions@),
    {
        let mut blocks: Vec<SingleBlockOffset> = Vec::new();
        let mut idx: usize = 0;
        while idx < positions.len()
            invariant
                idx <= positions@.len(),
                blocks@ == offsets_of(positions@).take(idx as int),
            decreases positions@.len() - idx,
        {
            let (col, row) = positions[idx];
            blocks.push(SingleBlockOffset::from((col, row, idx)));
            idx += 1;
            assert(blocks@ =~= offsets_of(positions@).take(idx as int));
        }
        assert(blocks@ =~= offsets_of(positions@));
        NBlockOffsets { blocks }
    }

    /// Number of blocks.
    pub fn len(&self) -> (r: usize)
        ensures
            r == self.blocks@.len(),
    {
        self.blocks.len()
    }

    /// The largest row offset among the blocks, `None` when there is no block.
    pub fn lowest_row_offset(&self) -> (r: Option<i32>)
        ensures
            r is None <==> self.blocks@.len() == 0,
            r matches Some(m) ==> m == max_row(self.blocks@),
            r matches Some(m) ==> exists|j: int|
                0 <= j < self.blocks@.len() && #[trigger] self.blocks@[j].row == m,
            r matches Some(m) ==> forall|j: int|
                0 <= j < self.blocks@.len() ==> #[trigger] self.blocks@[j].row <= m,
    {
        let mut lowest: Option<i32> = None;
        let mut i: usize = 0;
        while i < self.blocks.len()
            invariant
                i <= self.blocks@.len(),
                lowest is None <==> i == 0,
                lowest matches Some(m) ==> m == max_row(self.blocks@.take(i as int)),
            decreases self.blocks@.len() - i,
        {
            let row = self.blocks[i].row;
            assert(self.blocks@.take(i + 1).drop_last() =~= self.blocks@.take(i as int));
            match lowest {
                None => {
                    lowest = Some(row);
                },
                Some(m) => {
                    if row > m {
                        lowest = Some(row);
                    }
                },
            }
            i += 1;
        }
        assert(self.blocks@.take(i as int) =~= self.blocks@);
        if i > 0 {
            proof {
                lemma_max_row(self.blocks@);
            }
        }
        lowest
    }
}

} // verus!
