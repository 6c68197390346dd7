use vstd::prelude::*;

use crate::block::BlockSize;
use crate::game::{toggled, GameState, State};
use crate::grid::{CanvasPoint, Grid};
use crate::piece::{next_disposition, rotate_standard_piece, transforms_of, Piece};

verus! {

/// Rotate command: turns an active piece to its next disposition and returns the new
/// canvas point of each of its blocks. A piece that has landed is left as it is and
/// `None` comes back. The game mode plays no part: a paused game still rotates.
pub fn rotate_piece(
    piece: &mut Piece,
    grid: &Grid,
    block_size: &BlockSize,
) -> (r: Option<Vec<CanvasPoint>>)
    requires
        old(piece).wf(),
    ensures
        final(piece).wf(),
        r is Some <==> old(piece).active,
        !old(piece).active ==> *final(piece) == *old(piece),
        old(piece).active ==> {
            &&& final(piece).kind == old(piece).kind
            &&& final(piece).position == old(piece).position
            &&& final(piece).active
            &&& final(piece).rotations.rotations_offsets == old(piece).rotations.rotations_offsets
            &&& final(piece).rotations.current.0 == next_disposition(
                old(piece).rotations.current.0 as int,
                old(piece).rotations.rotations_offsets.count(),
            )
        },
        r matches Some(points) ==> points@ == transforms_of(
            final(piece).current_offsets(),
            grid.position,
            final(piece).position,
            *block_size,
        ),
{
    if !piece.active {
        return None;
    }
    let points = rotate_standard_piece(
        &piece.rotations.rotations_offsets,
        &mut piece.rotations.current,
        &piece.position,
        &grid.position,
        block_size,
    );
    Some(points)
}

/// Pause command: a running game pauses, a paused one resumes.
pub fn toggle_game_state(game_state: &mut GameState)
    ensures
        final(game_state).0 == toggled(old(game_state).0),
{
    match game_state.0 {
        State::Running => {
            *game_state = GameState(State::Paused);
        },
        State::Paused => {
            *game_state = GameState(State::Running);
        },
    }
}

} // verus!
