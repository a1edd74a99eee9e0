//! The two state machines that sequence a game: the coarse game phase and
//! the per-turn owner.

use vstd::prelude::*;

verus! {

/// The coarse phases of a session. `Menu` leads to `SetupGame` (catalog
/// collection and shuffle), then `BeginGame` (initial deal), after which
/// `DuringTurn` and `NextTurn` alternate, one pair per successful play.
#[derive(Clone, Copy, Debug, Hash, PartialEq, Eq, Structural)]
pub enum GameState {
    Menu,
    SetupGame,
    BeginGame,
    DuringTurn,
    NextTurn,
}

impl Default for GameState {
    /// A session starts at the menu.
    fn default() -> (s: Self)
        ensures
            s == GameState::Menu,
    {
        GameState::Menu
    }
}

/// Whose hand may act. `NoTurn` holds only before the first turn.
#[derive(Clone, Copy, Debug, Hash, PartialEq, Eq, Structural)]
pub enum TurnState {
    NoTurn,
    PlayerTurn,
    OpponentTurn,
}

impl Default for TurnState {
    /// Nobody's turn before the game begins.
    fn default() -> (t: Self)
        ensures
            t == TurnState::NoTurn,
    {
        TurnState::NoTurn
    }
}

/// The turn owner after one transition: the first transition hands the
/// turn to the player, and after that the two sides alternate forever.
pub open spec fn next_turn_of(t: TurnState) -> TurnState {
    match t {
        TurnState::NoTurn => TurnState::PlayerTurn,
        TurnState::PlayerTurn => TurnState::OpponentTurn,
        TurnState::OpponentTurn => TurnState::PlayerTurn,
    }
}

/// The turn owner after `n` transitions from `t`.
pub open spec fn turns_after(t: TurnState, n: nat) -> TurnState
    decreases n,
{
    if n == 0 {
        t
    } else {
        next_turn_of(turns_after(t, (n - 1) as nat))
    }
}

/// Turn alternation: starting from the player's first turn, after `n`
/// successful plays the turn owner is the player exactly when `n` is
/// even, and the opponent exactly when `n` is odd.
pub proof fn lemma_turn_alternation(n: nat)
    ensures
        turns_after(TurnState::PlayerTurn, n) == (if n % 2 == 0 {
            TurnState::PlayerTurn
        } else {
            TurnState::OpponentTurn
        }),
    decreases n,
{
    if n > 0 {
        lemma_turn_alternation((n - 1) as nat);
    }
}

} // verus!
