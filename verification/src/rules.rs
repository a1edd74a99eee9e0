//! The compatibility rules: the one place that decides whether a card may
//! be played against the current board state, and the error taxonomy of
//! the rule engine.

use vstd::prelude::*;

use crate::cards::CardType;
use crate::cards::SubType;

verus! {

/// The conditions a play or a deal can fail with.
#[derive(Clone, Copy, Debug, PartialEq, Eq, Structural)]
pub enum GameError {
    /// The chosen card is not legal against the acting board: the play is
    /// rejected and nothing changes.
    IllegalPlay,
    /// A card was asked of an empty deck during the initial deal: a fatal
    /// setup inconsistency.
    DeckExhausted,
    /// A remedy card carries a sub-kind no remedy has: a data-integrity
    /// bug in the catalog, unreachable while every card is well-formed.
    InvalidCardDefinition,
}

/// The sub-kinds a remedy card can carry.
pub open spec fn remedy_kind(kind: SubType) -> bool {
    ||| kind == SubType::Repairs
    ||| kind == SubType::Gasoline
    ||| kind == SubType::EndOfLimit
    ||| kind == SubType::SpareTyre
    ||| kind == SubType::Roll
}

/// Whether a card of the given category and sub-kind may be played while
/// `board_card_type` occupies the acting player's own board (`NoCard` if
/// the board is empty).
///
/// Hazards and distances need a rolling board; safeties always go; each
/// remedy answers one hazard, and `Roll` goes whenever the board is
/// neither rolling already nor blocked by a hazard that `Stop` is not.
pub open spec fn playable(board_card_type: SubType, card_type: CardType, sub_type: SubType) -> bool
    recommends
        card_type == CardType::Remedy ==> remedy_kind(sub_type),
{
    match card_type {
        CardType::Hazard => board_card_type == SubType::Roll,
        CardType::Safety => true,
        CardType::Distance => board_card_type == SubType::Roll,
        CardType::Remedy => match sub_type {
            SubType::Repairs => board_card_type == SubType::Accident,
            SubType::Gasoline => board_card_type == SubType::OutOfGas,
            SubType::EndOfLimit => board_card_type == SubType::SpeedLimit,
            SubType::SpareTyre => board_card_type == SubType::FlatTyre,
            SubType::Roll => match board_card_type {
                SubType::Accident => false,
                SubType::OutOfGas => false,
                SubType::SpeedLimit => false,
                SubType::FlatTyre => false,
                SubType::Roll => false,
                _ => true,
            },
            _ => false,
        },
    }
}

/// Decides whether the card may be played. The single legality decision
/// point: every play, interactive or automated, routes through it.
pub fn is_playable(board_card_type: SubType, card_type: CardType, sub_type: SubType) -> (r: bool)
    requires
        card_type == CardType::Remedy ==> remedy_kind(sub_type),
    ensures
        r == playable(board_card_type, card_type, sub_type),
{
    match card_type {
        CardType::Hazard => matches!(board_card_type, SubType::Roll),
        CardType::Safety => true,
        CardType::Distance => matches!(board_card_type, SubType::Roll),
        CardType::Remedy => match sub_type {
            SubType::Repairs => matches!(board_card_type, SubType::Accident),
            SubType::Gasoline => matches!(board_card_type, SubType::OutOfGas),
            SubType::EndOfLimit => matches!(board_card_type, SubType::SpeedLimit),
            SubType::SpareTyre => matches!(board_card_type, SubType::FlatTyre),
            SubType::Roll => !matches!(
                board_card_type,
                SubType::Accident
                | SubType::OutOfGas
                | SubType::SpeedLimit
                | SubType::FlatTyre
                | SubType::Roll
            ),
            _ => {
                proof {
                    assert(false);
                }
                false
            },
        },
    }
}

/// Decides legality for an arbitrary category and sub-kind pairing,
/// reporting a remedy whose sub-kind no remedy has as
/// `InvalidCardDefinition` instead of ruling on it.
pub fn check_playable(board_card_type: SubType, card_type: CardType, sub_type: SubType) -> (r:
    Result<bool, GameError>)
    ensures
        card_type == CardType::Remedy && !remedy_kind(sub_type) ==> r == Err::<
            bool,
            GameError,
        >(GameError::InvalidCardDefinition),
        !(card_type == CardType::Remedy && !remedy_kind(sub_type)) ==> r == Ok::<
            bool,
            GameError,
        >(playable(board_card_type, card_type, sub_type)),
{
    let bad_remedy = matches!(card_type, CardType::Remedy) && !matches!(
        sub_type,
        SubType::Repairs
        | SubType::Gasoline
        | SubType::EndOfLimit
        | SubType::SpareTyre
        | SubType::Roll
    );
    if bad_remedy {
        Err(GameError::InvalidCardDefinition)
    } else {
        Ok(is_playable(board_card_type, card_type, sub_type))
    }
}

/// A hazard may be laid on a rolling board whatever its sub-kind.
pub proof fn lemma_hazard_playable_on_roll(sub_type: SubType)
    ensures
        playable(SubType::Roll, CardType::Hazard, sub_type),
{
}

/// A safety card is playable against every board state.
pub proof fn lemma_safety_always_playable(board_card_type: SubType, sub_type: SubType)
    ensures
        playable(board_card_type, CardType::Safety, sub_type),
{
}

} // verus!
