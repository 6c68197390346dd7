use vstd::prelude::*;

verus! {

/// Mode of the game; gravity runs only while `Running`.
#[derive(Debug, Clone, Copy, PartialEq, Eq, Structural)]
pub enum State {
    Paused,
    Running,
}

/// The current mode of the game.
#[derive(Debug, Clone, Copy, PartialEq, Eq, Structural)]
pub struct GameState(pub State);

/// The mode that a toggle command leads to from `s`.
pub open spec fn toggled(s: State) -> State {
    match s {
        State::Running => State::Paused,
        State::Paused => State::Running,
    }
}

/// Toggling the pause twice restores the mode the game was in.
pub proof fn lemma_toggle_twice(s: State)
    ensures
        toggled(toggled(s)) == s,
{
}

impl GameState {
    /// A game starts running.
    pub fn new() -> (r: GameState)
        ensures
            r.0 == State::Running,
    {
        GameState(State::Running)
    }
}

} // verus!
