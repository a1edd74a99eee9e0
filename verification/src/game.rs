//! The deck and hand lifecycle and the game session: shuffle, initial
//! deal, per-turn draw, hand-to-board plays with discard-on-replace, and
//! the phase and turn transitions that sequence them.

use vstd::prelude::*;

use rand::seq::SliceRandom;

use crate::cards::Card;
use crate::cards::CATALOG_SIZE;
use crate::cards::SubType;
use crate::cards::catalog_count;
use crate::cards::kind_count;
use crate::cards::lemma_kind_count_drop_last;
use crate::cards::lemma_kind_count_push;
use crate::cards::lemma_kind_count_remove;
use crate::cards::wf_card;
use crate::cards::wf_cards;
use crate::rules::GameError;
use crate::rules::is_playable;
use crate::rules::playable;
use crate::state::GameState;
use crate::state::TurnState;

verus! {

/// The configuration of a session. `miles` is the distance goal; no rule
/// of this core reads it.
pub struct GameRules {
    pub miles: i32,
    pub hand_size: usize,
}

impl Default for GameRules {
    /// The standard configuration: six cards per hand.
    fn default() -> (r: Self)
        ensures
            r.miles == 700,
            r.hand_size == 6,
    {
        GameRules { miles: 700, hand_size: 6 }
    }
}

/// The sub-kind a playability question sees on a board slot: the
/// occupant's, or `NoCard` for an empty slot.
pub open spec fn board_kind(slot: Option<Card>) -> SubType {
    match slot {
        Some(c) => c.sub_type,
        None => SubType::NoCard,
    }
}

/// How many cards of sub-kind `kind` a board slot holds.
pub open spec fn slot_count(slot: Option<Card>, kind: SubType) -> int {
    match slot {
        Some(c) => if c.sub_type == kind {
            1int
        } else {
            0int
        },
        None => 0,
    }
}

/// How many cards a board slot holds.
pub open spec fn slot_len(slot: Option<Card>) -> int {
    match slot {
        Some(_) => 1,
        None => 0,
    }
}

/// A board slot is empty or holds a well-formed card.
pub open spec fn wf_slot(slot: Option<Card>) -> bool {
    slot matches Some(c) ==> wf_card(c)
}

/// Reads the sub-kind the board presents to the playability rules.
pub fn board_top(slot: &Option<Card>) -> (k: SubType)
    ensures
        k == board_kind(*slot),
{
    match slot {
        Some(c) => c.sub_type,
        None => SubType::NoCard,
    }
}

/// Permutes the deck uniformly at random, in place.
///
/// Relies on rand's `SliceRandom::shuffle` (driven by `rand::thread_rng`):
/// it only swaps elements of the slice, so whatever order comes out, the
/// cards themselves, their number and their per-kind counts are unchanged.
#[verifier::external_body]
fn shuffle_cards(cards: &mut Vec<Card>)
    ensures
        final(cards)@.len() == old(cards)@.len(),
        forall|k: SubType| #[trigger] kind_count(final(cards)@, k) == kind_count(old(cards)@, k),
        forall|i: int|
            0 <= i < final(cards)@.len() ==> exists|j: int|
                0 <= j < old(cards)@.len() && #[trigger] final(cards)@[i] == #[trigger] old(
                    cards,
                )@[j],
{
    cards.shuffle(&mut rand::thread_rng());
}

/// Collects the catalog into the deck zone and shuffles it.
pub fn initialize_deck(catalog: Vec<Card>) -> (deck: Vec<Card>)
    ensures
        deck@.len() == catalog@.len(),
        forall|k: SubType| #[trigger] kind_count(deck@, k) == kind_count(catalog@, k),
        wf_cards(catalog@) ==> wf_cards(deck@),
{
    let mut deck = catalog;
    shuffle_cards(&mut deck);
    deck
}

/// Pops one card from the deck into the given hand and reports it. An
/// empty deck is not an error: nothing is drawn and nothing changes.
pub fn draw(deck: &mut Vec<Card>, hand: &mut Vec<Card>) -> (drawn: Option<Card>)
    ensures
        old(deck)@.len() == 0 ==> drawn is None && final(deck)@ == old(deck)@ && final(hand)@
            == old(hand)@,
        old(deck)@.len() > 0 ==> {
            &&& drawn == Some(old(deck)@.last())
            &&& final(deck)@ == old(deck)@.drop_last()
            &&& final(hand)@ == old(hand)@.push(old(deck)@.last())
        },
        forall|k: SubType| #[trigger]
            kind_count(final(deck)@, k) + kind_count(final(hand)@, k) == kind_count(old(deck)@, k)
                + kind_count(old(hand)@, k),
        wf_cards(old(deck)@) && wf_cards(old(hand)@) ==> wf_cards(final(deck)@) && wf_cards(
            final(hand)@,
        ),
{
    proof {
        if deck@.len() > 0 {
            lemma_kind_count_drop_last(deck@);
        }
    }
    match deck.pop() {
        Some(card) => {
            proof {
                assert(deck@ =~= old(deck)@.drop_last());
                lemma_kind_count_push(hand@, card);
            }
            hand.push(card);
            Some(card)
        },
        None => None,
    }
}

/// Deals the opening hands: `hand_size` rounds, each popping one card to
/// the player and then one to the opponent. Fails with `DeckExhausted`,
/// touching nothing, when the deck cannot cover both hands.
pub fn deal(
    deck: &mut Vec<Card>,
    player_hand: &mut Vec<Card>,
    opponent_hand: &mut Vec<Card>,
    hand_size: usize,
) -> (r: Result<(), GameError>)
    ensures
        2 * hand_size <= old(deck)@.len() ==> {
            &&& r == Ok::<(), GameError>(())
            &&& final(deck)@ == old(deck)@.subrange(0, old(deck)@.len() - 2 * hand_size)
            &&& final(player_hand)@ == old(player_hand)@ + Seq::new(
                hand_size as nat,
                |i: int| old(deck)@[old(deck)@.len() - 1 - 2 * i],
            )
            &&& final(opponent_hand)@ == old(opponent_hand)@ + Seq::new(
                hand_size as nat,
                |i: int| old(deck)@[old(deck)@.len() - 2 - 2 * i],
            )
        },
        2 * hand_size > old(deck)@.len() ==> {
            &&& r == Err::<(), GameError>(GameError::DeckExhausted)
            &&& final(deck)@ == old(deck)@
            &&& final(player_hand)@ == old(player_hand)@
            &&& final(opponent_hand)@ == old(opponent_hand)@
        },
        forall|k: SubType| #[trigger]
            kind_count(final(deck)@, k) + kind_count(final(player_hand)@, k) + kind_count(
                final(opponent_hand)@,
                k,
            ) == kind_count(old(deck)@, k) + kind_count(old(player_hand)@, k) + kind_count(
                old(opponent_hand)@,
                k,
            ),
        wf_cards(old(deck)@) && wf_cards(old(player_hand)@) && wf_cards(old(opponent_hand)@)
            ==> wf_cards(final(deck)@) && wf_cards(final(player_hand)@) && wf_cards(
            final(opponent_hand)@,
        ),
{
    if deck.len() / 2 < hand_size {
        return Err(GameError::DeckExhausted);
    }
    let ghost d0 = deck@;
    let ghost p0 = player_hand@;
    let ghost o0 = opponent_hand@;
    let mut i: usize = 0;
    while i < hand_size
        invariant
            i <= hand_size,
            2 * hand_size <= d0.len(),
            deck@ == d0.subrange(0, d0.len() - 2 * i),
            player_hand@ == p0 + Seq::new(i as nat, |j: int| d0[d0.len() - 1 - 2 * j]),
            opponent_hand@ == o0 + Seq::new(i as nat, |j: int| d0[d0.len() - 2 - 2 * j]),
            forall|k: SubType| #[trigger]
                kind_count(deck@, k) + kind_count(player_hand@, k) + kind_count(opponent_hand@, k)
                    == kind_count(d0, k) + kind_count(p0, k) + kind_count(o0, k),
        decreases hand_size - i,
    {
        proof {
            lemma_kind_count_drop_last(deck@);
            assert(deck@.subrange(0, deck@.len() - 1) =~= deck@.drop_last());
            assert(deck@.drop_last() =~= d0.subrange(0, d0.len() - 2 * i - 1));
        }
        let ghost deck_before = deck@;
        let player_card = deck.pop().unwrap();
        proof {
            lemma_kind_count_drop_last(deck@);
            assert(deck@.subrange(0, deck@.len() - 1) =~= deck@.drop_last());
            assert(deck@.drop_last() =~= d0.subrange(0, d0.len() - 2 * i - 2));
            lemma_kind_count_push(player_hand@, player_card);
        }
        let opponent_card = deck.pop().unwrap();
        proof {
            lemma_kind_count_push(opponent_hand@, opponent_card);
        }
        player_hand.push(player_card);
        opponent_hand.push(opponent_card);
        i = i + 1;
        proof {
            assert(player_hand@ =~= p0 + Seq::new(i as nat, |j: int| d0[d0.len() - 1 - 2 * j]));
            assert(opponent_hand@ =~= o0 + Seq::new(i as nat, |j: int| d0[d0.len() - 2 - 2 * j]));
        }
    }
    proof {
        if wf_cards(d0) && wf_cards(p0) && wf_cards(o0) {
            assert forall|ix: int| 0 <= ix < deck@.len() implies wf_card(deck@[ix]) by {
                assert(deck@[ix] == d0[ix]);
            }
            assert forall|ix: int| 0 <= ix < player_hand@.len() implies wf_card(
                player_hand@[ix],
            ) by {
                if ix >= p0.len() {
                    assert(player_hand@[ix] == d0[d0.len() - 1 - 2 * (ix - p0.len())]);
                }
            }
            assert forall|ix: int| 0 <= ix < opponent_hand@.len() implies wf_card(
                opponent_hand@[ix],
            ) by {
                if ix >= o0.len() {
                    assert(opponent_hand@[ix] == d0[d0.len() - 2 - 2 * (ix - o0.len())]);
                }
            }
        }
    }
    Ok(())
}

/// Moves the chosen card from the hand onto the board if the rules allow
/// it, sending any prior occupant to the discard pile. An illegal choice
/// is rejected and changes nothing.
pub fn play(
    hand: &mut Vec<Card>,
    board: &mut Option<Card>,
    discard_pile: &mut Vec<Card>,
    chosen: usize,
) -> (r: Result<(), GameError>)
    requires
        chosen < old(hand)@.len(),
        wf_card(old(hand)@[chosen as int]),
    ensures
        playable(
            board_kind(*old(board)),
            old(hand)@[chosen as int].card_type,
            old(hand)@[chosen as int].sub_type,
        ) ==> {
            &&& r == Ok::<(), GameError>(())
            &&& final(hand)@ == old(hand)@.remove(chosen as int)
            &&& *final(board) == Some(old(hand)@[chosen as int])
            &&& final(discard_pile)@ == (match *old(board) {
                Some(prev) => old(discard_pile)@.push(prev),
                None => old(discard_pile)@,
            })
        },
        !playable(
            board_kind(*old(board)),
            old(hand)@[chosen as int].card_type,
            old(hand)@[chosen as int].sub_type,
        ) ==> {
            &&& r == Err::<(), GameError>(GameError::IllegalPlay)
            &&& final(hand)@ == old(hand)@
            &&& *final(board) == *old(board)
            &&& final(discard_pile)@ == old(discard_pile)@
        },
        forall|k: SubType| #[trigger]
            kind_count(final(hand)@, k) + slot_count(*final(board), k) + kind_count(
                final(discard_pile)@,
                k,
            ) == kind_count(old(hand)@, k) + slot_count(*old(board), k) + kind_count(
                old(discard_pile)@,
                k,
            ),
        wf_cards(old(hand)@) && wf_slot(*old(board)) && wf_cards(old(discard_pile)@) ==> wf_cards(
            final(hand)@,
        ) && wf_slot(*final(board)) && wf_cards(final(discard_pile)@),
{
    let card = hand[chosen];
    let legal = is_playable(board_top(board), card.card_type, card.sub_type);
    if legal {
        match *board {
            Some(prev) => {
                proof {
                    lemma_kind_count_push(discard_pile@, prev);
                }
                discard_pile.push(prev);
            },
            None => {},
        }
        proof {
            lemma_kind_count_remove(hand@, chosen as int);
        }
        let chosen_card = hand.remove(chosen);
        *board = Some(chosen_card);
        Ok(())
    } else {
        Err(GameError::IllegalPlay)
    }
}

/// One game session: every zone a card can sit in, plus the phase and
/// turn state machines that gate the lifecycle operations.
pub struct Game {
    pub deck: Vec<Card>,
    pub player_hand: Vec<Card>,
    pub opponent_hand: Vec<Card>,
    pub player_board: Option<Card>,
    pub opponent_board: Option<Card>,
    pub discard_pile: Vec<Card>,
    pub phase: GameState,
    pub turn: TurnState,
}

impl Game {
    /// How many cards of sub-kind `k` all zones together hold.
    pub open spec fn total_kind_count(self, k: SubType) -> int {
        kind_count(self.deck@, k) + kind_count(self.player_hand@, k) + kind_count(
            self.opponent_hand@,
            k,
        ) + slot_count(self.player_board, k) + slot_count(self.opponent_board, k) + kind_count(
            self.discard_pile@,
            k,
        )
    }

    /// How many cards all zones together hold.
    pub open spec fn total_cards(self) -> int {
        self.deck@.len() + self.player_hand@.len() + self.opponent_hand@.len() + slot_len(
            self.player_board,
        ) + slot_len(self.opponent_board) + self.discard_pile@.len()
    }

    /// Conservation: the zones together hold exactly the catalog, card
    /// for card. No card is created or destroyed after catalog setup.
    pub open spec fn cards_conserved(self) -> bool {
        &&& forall|k: SubType| #[trigger] self.total_kind_count(k) == catalog_count(k)
        &&& self.total_cards() == CATALOG_SIZE
    }

    /// Every card in every zone is well-formed.
    pub open spec fn zones_wf(self) -> bool {
        &&& wf_cards(self.deck@)
        &&& wf_cards(self.player_hand@)
        &&& wf_cards(self.opponent_hand@)
        &&& wf_slot(self.player_board)
        &&& wf_slot(self.opponent_board)
        &&& wf_cards(self.discard_pile@)
    }

    /// The session invariant. Before setup all zones are empty; from
    /// setup on, the zones conserve the catalog; the turn only leaves
    /// `NoTurn` when the per-turn phases begin, and never returns to it.
    pub open spec fn inv(self) -> bool {
        &&& self.zones_wf()
        &&& match self.phase {
            GameState::Menu => {
                &&& self.deck@.len() == 0
                &&& self.player_hand@.len() == 0
                &&& self.opponent_hand@.len() == 0
                &&& self.player_board is None
                &&& self.opponent_board is None
                &&& self.discard_pile@.len() == 0
                &&& self.turn == TurnState::NoTurn
            },
            GameState::SetupGame => {
                &&& self.cards_conserved()
                &&& self.player_hand@.len() == 0
                &&& self.opponent_hand@.len() == 0
                &&& self.player_board is None
                &&& self.opponent_board is None
                &&& self.discard_pile@.len() == 0
                &&& self.turn == TurnState::NoTurn
            },
            GameState::BeginGame => {
                &&& self.cards_conserved()
                &&& self.player_board is None
                &&& self.opponent_board is None
                &&& self.discard_pile@.len() == 0
                &&& self.turn == TurnState::NoTurn
            },
            GameState::DuringTurn | GameState::NextTurn => {
                &&& self.cards_conserved()
                &&& self.turn != TurnState::NoTurn
            },
        }
    }

    /// Whether a play of the player-hand card at `chosen` is accepted:
    /// it is the player's turn, interaction is open, the index names a
    /// card, and that card is legal against the player's own board.
    pub open spec fn player_play_accepted(self, chosen: int) -> bool {
        &&& self.turn == TurnState::PlayerTurn
        &&& self.phase == GameState::DuringTurn
        &&& 0 <= chosen < self.player_hand@.len()
        &&& playable(
            board_kind(self.player_board),
            self.player_hand@[chosen].card_type,
            self.player_hand@[chosen].sub_type,
        )
    }

    /// The mirror of `player_play_accepted` for the opponent.
    pub open spec fn opponent_play_accepted(self, chosen: int) -> bool {
        &&& self.turn == TurnState::OpponentTurn
        &&& self.phase == GameState::DuringTurn
        &&& 0 <= chosen < self.opponent_hand@.len()
        &&& playable(
            board_kind(self.opponent_board),
            self.opponent_hand@[chosen].card_type,
            self.opponent_hand@[chosen].sub_type,
        )
    }

    /// A fresh session: at the menu, no cards anywhere, nobody's turn.
    pub fn new() -> (g: Game)
        ensures
            g.inv(),
            g.phase == GameState::Menu,
            g.turn == TurnState::NoTurn,
            g.deck@.len() == 0,
            g.player_hand@.len() == 0,
            g.opponent_hand@.len() == 0,
            g.player_board is None,
            g.opponent_board is None,
            g.discard_pile@.len() == 0,
    {
        Game {
            deck: Vec::new(),
            player_hand: Vec::new(),
            opponent_hand: Vec::new(),
            player_board: None,
            opponent_board: None,
            discard_pile: Vec::new(),
            phase: GameState::Menu,
            turn: TurnState::NoTurn,
        }
    }

    /// Leaves the menu: collects the full catalog into the deck zone,
    /// shuffles it, and enters `SetupGame`.
    pub fn setup_game(&mut self)
        requires
            old(self).inv(),
            old(self).phase == GameState::Menu,
        ensures
            final(self).inv(),
            final(self).phase == GameState::SetupGame,
            final(self).deck@.len() == CATALOG_SIZE,
            forall|k: SubType| #[trigger] kind_count(final(self).deck@, k) == catalog_count(k),
            final(self).player_hand@ == old(self).player_hand@,
            final(self).opponent_hand@ == old(self).opponent_hand@,
            final(self).player_board == old(self).player_board,
            final(self).opponent_board == old(self).opponent_board,
            final(self).discard_pile@ == old(self).discard_pile@,
            final(self).turn == old(self).turn,
    {
        let catalog = crate::cards::build_catalog();
        self.deck = initialize_deck(catalog);
        self.phase = GameState::SetupGame;
        proof {
            assert forall|k: SubType| #[trigger] self.total_kind_count(k) == catalog_count(k) by {
                assert(kind_count(self.deck@, k) == catalog_count(k));
            }
        }
    }

    /// Setup is done: enters `BeginGame`, where the initial deal runs.
    pub fn begin_game(&mut self)
        requires
            old(self).inv(),
            old(self).phase == GameState::SetupGame,
        ensures
            final(self).inv(),
            final(self).phase == GameState::BeginGame,
            final(self).deck@ == old(self).deck@,
            final(self).player_hand@ == old(self).player_hand@,
            final(self).opponent_hand@ == old(self).opponent_hand@,
            final(self).player_board == old(self).player_board,
            final(self).opponent_board == old(self).opponent_board,
            final(self).discard_pile@ == old(self).discard_pile@,
            final(self).turn == old(self).turn,
    {
        self.phase = GameState::BeginGame;
        proof {
            assert forall|k: SubType| #[trigger] self.total_kind_count(k) == catalog_count(k) by {
                assert(old(self).total_kind_count(k) == catalog_count(k));
            }
        }
    }

    /// The initial deal: `rules.hand_size` rounds, the player drawing
    /// first in each. Owed success exactly when the deck covers both
    /// hands; otherwise `DeckExhausted` and no change.
    pub fn deal(&mut self, rules: &GameRules) -> (r: Result<(), GameError>)
        requires
            old(self).inv(),
            old(self).phase == GameState::BeginGame,
        ensures
            final(self).inv(),
            final(self).phase == old(self).phase,
            final(self).turn == old(self).turn,
            final(self).player_board == old(self).player_board,
            final(self).opponent_board == old(self).opponent_board,
            final(self).discard_pile@ == old(self).discard_pile@,
            2 * rules.hand_size <= old(self).deck@.len() ==> {
                &&& r == Ok::<(), GameError>(())
                &&& final(self).deck@ == old(self).deck@.subrange(
                    0,
                    old(self).deck@.len() - 2 * rules.hand_size,
                )
                &&& final(self).player_hand@ == old(self).player_hand@ + Seq::new(
                    rules.hand_size as nat,
                    |i: int| old(self).deck@[old(self).deck@.len() - 1 - 2 * i],
                )
                &&& final(self).opponent_hand@ == old(self).opponent_hand@ + Seq::new(
                    rules.hand_size as nat,
                    |i: int| old(self).deck@[old(self).deck@.len() - 2 - 2 * i],
                )
            },
            2 * rules.hand_size > old(self).deck@.len() ==> {
                &&& r == Err::<(), GameError>(GameError::DeckExhausted)
                &&& final(self).deck@ == old(self).deck@
                &&& final(self).player_hand@ == old(self).player_hand@
                &&& final(self).opponent_hand@ == old(self).opponent_hand@
            },
    {
        let r = deal(&mut self.deck, &mut self.player_hand, &mut self.opponent_hand, rules.hand_size);
        proof {
            assert forall|k: SubType| #[trigger] self.total_kind_count(k) == catalog_count(k) by {
                assert(old(self).total_kind_count(k) == catalog_count(k));
            }
        }
        r
    }

    /// The turn-start draw for the player: the deck's top card moves to
    /// the player's hand. An empty deck changes nothing; in particular
    /// the turn and phase stay as they are, and no error is raised.
    pub fn draw_player_card(&mut self)
        requires
            old(self).inv(),
            old(self).turn == TurnState::PlayerTurn,
        ensures
            final(self).inv(),
            final(self).phase == old(self).phase,
            final(self).turn == old(self).turn,
            final(self).opponent_hand@ == old(self).opponent_hand@,
            final(self).player_board == old(self).player_board,
            final(self).opponent_board == old(self).opponent_board,
            final(self).discard_pile@ == old(self).discard_pile@,
            old(self).deck@.len() == 0 ==> {
                &&& final(self).deck@ == old(self).deck@
                &&& final(self).player_hand@ == old(self).player_hand@
            },
            old(self).deck@.len() > 0 ==> {
                &&& final(self).deck@ == old(self).deck@.drop_last()
                &&& final(self).player_hand@ == old(self).player_hand@.push(old(self).deck@.last())
            },
    {
        let _ = draw(&mut self.deck, &mut self.player_hand);
        proof {
            assert forall|k: SubType| #[trigger] self.total_kind_count(k) == catalog_count(k) by {
                assert(old(self).total_kind_count(k) == catalog_count(k));
            }
        }
    }

    /// The turn-start draw for the opponent.
    pub fn draw_opponent_card(&mut self)
        requires
            old(self).inv(),
            old(self).turn == TurnState::OpponentTurn,
        ensures
            final(self).inv(),
            final(self).phase == old(self).phase,
            final(self).turn == old(self).turn,
            final(self).player_hand@ == old(self).player_hand@,
            final(self).player_board == old(self).player_board,
            final(self).opponent_board == old(self).opponent_board,
            final(self).discard_pile@ == old(self).discard_pile@,
            old(self).deck@.len() == 0 ==> {
                &&& final(self).deck@ == old(self).deck@
                &&& final(self).opponent_hand@ == old(self).opponent_hand@
            },
            old(self).deck@.len() > 0 ==> {
                &&& final(self).deck@ == old(self).deck@.drop_last()
                &&& final(self).opponent_hand@ == old(self).opponent_hand@.push(
                    old(self).deck@.last(),
                )
            },
    {
        let _ = draw(&mut self.deck, &mut self.opponent_hand);
        proof {
            assert forall|k: SubType| #[trigger] self.total_kind_count(k) == catalog_count(k) by {
                assert(old(self).total_kind_count(k) == catalog_count(k));
            }
        }
    }

    /// A play attempt by the player on the card at `chosen`. If accepted,
    /// the card leaves the hand and becomes the sole occupant of the
    /// player's board, any prior occupant moves to the discard pile,
    /// every other zone is untouched, and the session enters `NextTurn`,
    /// which locks further plays out until `next_turn` runs. Otherwise
    /// the attempt is rejected as `IllegalPlay` and nothing changes.
    pub fn process_player_turn(&mut self, chosen: usize) -> (r: Result<(), GameError>)
        requires
            old(self).inv(),
        ensures
            final(self).inv(),
            old(self).player_play_accepted(chosen as int) ==> {
                &&& r == Ok::<(), GameError>(())
                &&& final(self).player_hand@ == old(self).player_hand@.remove(chosen as int)
                &&& final(self).player_board == Some(old(self).player_hand@[chosen as int])
                &&& final(self).discard_pile@ == (match old(self).player_board {
                    Some(prev) => old(self).discard_pile@.push(prev),
                    None => old(self).discard_pile@,
                })
                &&& final(self).deck@ == old(self).deck@
                &&& final(self).opponent_hand@ == old(self).opponent_hand@
                &&& final(self).opponent_board == old(self).opponent_board
                &&& final(self).phase == GameState::NextTurn
                &&& final(self).turn == old(self).turn
            },
            !old(self).player_play_accepted(chosen as int) ==> {
                &&& r == Err::<(), GameError>(GameError::IllegalPlay)
                &&& final(self).deck@ == old(self).deck@
                &&& final(self).player_hand@ == old(self).player_hand@
                &&& final(self).opponent_hand@ == old(self).opponent_hand@
                &&& final(self).player_board == old(self).player_board
                &&& final(self).opponent_board == old(self).opponent_board
                &&& final(self).discard_pile@ == old(self).discard_pile@
                &&& final(self).phase == old(self).phase
                &&& final(self).turn == old(self).turn
            },
    {
        if !matches!(self.turn, TurnState::PlayerTurn) || !matches!(
            self.phase,
            GameState::DuringTurn,
        ) || chosen >= self.player_hand.len() {
            return Err(GameError::IllegalPlay);
        }
        let r = play(&mut self.player_hand, &mut self.player_board, &mut self.discard_pile, chosen);
        match r {
            Ok(()) => {
                self.phase = GameState::NextTurn;
                proof {
                    assert forall|k: SubType| #[trigger]
                        self.total_kind_count(k) == catalog_count(k) by {
                        assert(old(self).total_kind_count(k) == catalog_count(k));
                    }
                }
                Ok(())
            },
            Err(e) => {
                proof {
                    assert forall|k: SubType| #[trigger]
                        self.total_kind_count(k) == catalog_count(k) by {
                        assert(old(self).total_kind_count(k) == catalog_count(k));
                    }
                }
                Err(e)
            },
        }
    }

    /// The mirror of `process_player_turn` for the opponent, against the
    /// opponent's own board.
    pub fn process_opponent_turn(&mut self, chosen: usize) -> (r: Result<(), GameError>)
        requires
            old(self).inv(),
        ensures
            final(self).inv(),
            old(self).opponent_play_accepted(chosen as int) ==> {
                &&& r == Ok::<(), GameError>(())
                &&& final(self).opponent_hand@ == old(self).opponent_hand@.remove(chosen as int)
                &&& final(self).opponent_board == Some(old(self).opponent_hand@[chosen as int])
                &&& final(self).discard_pile@ == (match old(self).opponent_board {
                    Some(prev) => old(self).discard_pile@.push(prev),
                    None => old(self).discard_pile@,
                })
                &&& final(self).deck@ == old(self).deck@
                &&& final(self).player_hand@ == old(self).player_hand@
                &&& final(self).player_board == old(self).player_board
                &&& final(self).phase == GameState::NextTurn
                &&& final(self).turn == old(self).turn
            },
            !old(self).opponent_play_accepted(chosen as int) ==> {
                &&& r == Err::<(), GameError>(GameError::IllegalPlay)
                &&& final(self).deck@ == old(self).deck@
                &&& final(self).player_hand@ == old(self).player_hand@
                &&& final(self).opponent_hand@ == old(self).opponent_hand@
                &&& final(self).player_board == old(self).player_board
                &&& final(self).opponent_board == old(self).opponent_board
                &&& final(self).discard_pile@ == old(self).discard_pile@
                &&& final(self).phase == old(self).phase
                &&& final(self).turn == old(self).turn
            },
    {
        if !matches!(self.turn, TurnState::OpponentTurn) || !matches!(
            self.phase,
            GameState::DuringTurn,
        ) || chosen >= self.opponent_hand.len() {
            return Err(GameError::IllegalPlay);
        }
        let r = play(
            &mut self.opponent_hand,
            &mut self.opponent_board,
            &mut self.discard_pile,
            chosen,
        );
        match r {
            Ok(()) => {
                self.phase = GameState::NextTurn;
                proof {
                    assert forall|k: SubType| #[trigger]
                        self.total_kind_count(k) == catalog_count(k) by {
                        assert(old(self).total_kind_count(k) == catalog_count(k));
                    }
                }
                Ok(())
            },
            Err(e) => {
                proof {
                    assert forall|k: SubType| #[trigger]
                        self.total_kind_count(k) == catalog_count(k) by {
                        assert(old(self).total_kind_count(k) == catalog_count(k));
                    }
                }
                Err(e)
            },
        }
    }

    /// Hands the turn to the other side — to the player when no turn has
    /// run yet — and reopens interaction by entering `DuringTurn`.
    pub fn next_turn(&mut self)
        requires
            old(self).inv(),
            old(self).phase == GameState::BeginGame || old(self).phase == GameState::NextTurn,
        ensures
            final(self).inv(),
            final(self).turn == crate::state::next_turn_of(old(self).turn),
            final(self).phase == GameState::DuringTurn,
            final(self).deck@ == old(self).deck@,
            final(self).player_hand@ == old(self).player_hand@,
            final(self).opponent_hand@ == old(self).opponent_hand@,
            final(self).player_board == old(self).player_board,
            final(self).opponent_board == old(self).opponent_board,
            final(self).discard_pile@ == old(self).discard_pile@,
    {
        self.turn = match self.turn {
            TurnState::PlayerTurn => TurnState::OpponentTurn,
            TurnState::OpponentTurn => TurnState::PlayerTurn,
            TurnState::NoTurn => TurnState::PlayerTurn,
        };
        self.phase = GameState::DuringTurn;
        proof {
            assert forall|k: SubType| #[trigger] self.total_kind_count(k) == catalog_count(k) by {
                assert(old(self).total_kind_count(k) == catalog_count(k));
            }
        }
    }
}

} // verus!
