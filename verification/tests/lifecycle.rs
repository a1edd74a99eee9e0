use mille_bornes::cards::build_catalog;
use mille_bornes::cards::Card;
use mille_bornes::cards::SubType;
use mille_bornes::cards::CATALOG_SIZE;
use mille_bornes::game::initialize_deck;
use mille_bornes::game::Game;
use mille_bornes::game::GameRules;
use mille_bornes::rules::GameError;
use mille_bornes::state::GameState;
use mille_bornes::state::TurnState;

fn count_kind(cards: &[Card], kind: SubType) -> usize {
    cards.iter().filter(|c| c.sub_type == kind).count()
}

fn zone_total(game: &Game, kind: SubType) -> usize {
    let slot = |board: &Option<Card>| match board {
        Some(c) if c.sub_type == kind => 1,
        _ => 0,
    };
    count_kind(&game.deck, kind)
        + count_kind(&game.player_hand, kind)
        + count_kind(&game.opponent_hand, kind)
        + count_kind(&game.discard_pile, kind)
        + slot(&game.player_board)
        + slot(&game.opponent_board)
}

fn assert_conserved(game: &Game) {
    let expected = [
        (SubType::Accident, 3),
        (SubType::OutOfGas, 3),
        (SubType::FlatTyre, 3),
        (SubType::SpeedLimit, 4),
        (SubType::Stop, 5),
        (SubType::Repairs, 6),
        (SubType::Gasoline, 6),
        (SubType::SpareTyre, 6),
        (SubType::EndOfLimit, 6),
        (SubType::Roll, 14),
        (SubType::DrivingAce, 1),
        (SubType::ExtraTank, 1),
        (SubType::PunctureProof, 1),
        (SubType::RightOfWay, 1),
        (SubType::TwentyFive, 10),
        (SubType::Fifty, 10),
        (SubType::SeventyFive, 10),
        (SubType::OneHundred, 12),
        (SubType::TwoHundred, 4),
    ];
    for (kind, count) in expected {
        assert_eq!(zone_total(game, kind), count);
    }
}

fn take_kind(deck: &mut Vec<Card>, kind: SubType) -> Card {
    let position = deck
        .iter()
        .position(|c| c.sub_type == kind)
        .expect("the catalog holds every kind");
    deck.remove(position)
}

/// A game whose hands are crafted from the catalog, ready for its first
/// turn transition; every catalog card still sits in exactly one zone.
fn craft_game(player_kinds: &[SubType], opponent_kinds: &[SubType]) -> Game {
    let mut deck = build_catalog();
    let mut player_hand = Vec::new();
    for &kind in player_kinds {
        player_hand.push(take_kind(&mut deck, kind));
    }
    let mut opponent_hand = Vec::new();
    for &kind in opponent_kinds {
        opponent_hand.push(take_kind(&mut deck, kind));
    }
    Game {
        deck,
        player_hand,
        opponent_hand,
        player_board: None,
        opponent_board: None,
        discard_pile: Vec::new(),
        phase: GameState::BeginGame,
        turn: TurnState::NoTurn,
    }
}

#[test]
fn game_rules_default_hand_size() {
    let rules = GameRules::default();
    assert_eq!(rules.hand_size, 6);
    assert_eq!(rules.miles, 700);
}

#[test]
fn shuffled_deck_keeps_the_catalog() {
    let deck = initialize_deck(build_catalog());
    assert_eq!(deck.len(), CATALOG_SIZE);
    assert_eq!(count_kind(&deck, SubType::Roll), 14);
    assert_eq!(count_kind(&deck, SubType::Accident), 3);
    assert_eq!(count_kind(&deck, SubType::OneHundred), 12);
    assert_eq!(count_kind(&deck, SubType::RightOfWay), 1);
}

#[test]
fn dealing_fills_both_hands_from_the_shuffled_deck() {
    let mut game = Game::new();
    assert_eq!(game.phase, GameState::Menu);
    game.setup_game();
    assert_eq!(game.phase, GameState::SetupGame);
    assert_eq!(game.deck.len(), CATALOG_SIZE);
    game.begin_game();
    assert_eq!(game.phase, GameState::BeginGame);
    let rules = GameRules::default();
    assert_eq!(game.deal(&rules), Ok(()));
    assert_eq!(game.player_hand.len(), 6);
    assert_eq!(game.opponent_hand.len(), 6);
    assert_eq!(game.deck.len(), CATALOG_SIZE - 12);
    assert_conserved(&game);
}

#[test]
fn dealing_pops_alternately_with_the_player_first() {
    let mut game = craft_game(&[], &[]);
    let deck_before = game.deck.clone();
    let rules = GameRules::default();
    assert_eq!(game.deal(&rules), Ok(()));
    let n = deck_before.len();
    for i in 0..6 {
        assert_eq!(game.player_hand[i], deck_before[n - 1 - 2 * i]);
        assert_eq!(game.opponent_hand[i], deck_before[n - 2 - 2 * i]);
    }
    assert_eq!(game.deck[..], deck_before[..n - 12]);
}

#[test]
fn dealing_from_a_short_deck_is_exhaustion() {
    let mut game = craft_game(&[], &[]);
    let rules = GameRules { miles: 700, hand_size: 60 };
    assert_eq!(game.deal(&rules), Err(GameError::DeckExhausted));
    assert_eq!(game.deck.len(), CATALOG_SIZE);
    assert_eq!(game.player_hand.len(), 0);
    assert_eq!(game.opponent_hand.len(), 0);

    let all_of_it = GameRules { miles: 700, hand_size: 53 };
    assert_eq!(game.deal(&all_of_it), Ok(()));
    assert_eq!(game.deck.len(), 0);
    assert_eq!(game.player_hand.len(), 53);
    assert_eq!(game.opponent_hand.len(), 53);
}

#[test]
fn turn_start_draw_moves_the_top_card() {
    let mut game = craft_game(&[SubType::Roll], &[SubType::Roll]);
    game.next_turn();
    assert_eq!(game.turn, TurnState::PlayerTurn);
    assert_eq!(game.phase, GameState::DuringTurn);
    let top = *game.deck.last().expect("the deck is full");
    let deck_len = game.deck.len();
    game.draw_player_card();
    assert_eq!(game.deck.len(), deck_len - 1);
    assert_eq!(game.player_hand.len(), 2);
    assert_eq!(*game.player_hand.last().unwrap(), top);
    assert_conserved(&game);
}

#[test]
fn drawing_from_an_empty_deck_changes_nothing() {
    let mut game = craft_game(&[SubType::Roll], &[]);
    // Empty the deck into the discard pile: every card stays in a zone.
    while let Some(card) = game.deck.pop() {
        game.discard_pile.push(card);
    }
    game.next_turn();
    let hand_before = game.player_hand.clone();
    game.draw_player_card();
    assert_eq!(game.deck.len(), 0);
    assert_eq!(game.player_hand, hand_before);
    assert_eq!(game.turn, TurnState::PlayerTurn);
    assert_eq!(game.phase, GameState::DuringTurn);
    assert_conserved(&game);
}

#[test]
fn a_legal_play_moves_the_card_and_evicts_the_occupant() {
    let mut game = craft_game(
        &[SubType::Roll, SubType::TwentyFive, SubType::Accident],
        &[SubType::Roll],
    );
    game.next_turn();
    let deck_len = game.deck.len();

    // The board is empty: the Roll remedy is legal.
    assert_eq!(game.process_player_turn(0), Ok(()));
    assert_eq!(game.player_hand.len(), 2);
    assert_eq!(game.player_board.map(|c| c.sub_type), Some(SubType::Roll));
    assert_eq!(game.discard_pile.len(), 0);
    assert_eq!(game.phase, GameState::NextTurn);
    assert_eq!(game.deck.len(), deck_len);
    assert_eq!(game.opponent_hand.len(), 1);
    assert_conserved(&game);

    // Two turns later the player lays a distance card on the rolling
    // board; the Roll is evicted to the discard pile.
    game.next_turn();
    assert_eq!(game.process_opponent_turn(0), Ok(()));
    game.next_turn();
    assert_eq!(game.turn, TurnState::PlayerTurn);
    assert_eq!(game.process_player_turn(0), Ok(()));
    assert_eq!(game.player_hand.len(), 1);
    assert_eq!(
        game.player_board.map(|c| c.sub_type),
        Some(SubType::TwentyFive)
    );
    assert_eq!(game.discard_pile.len(), 1);
    assert_eq!(game.discard_pile[0].sub_type, SubType::Roll);
    assert_conserved(&game);
}

#[test]
fn illegal_attempts_change_nothing() {
    let mut game = craft_game(&[SubType::TwentyFive, SubType::Roll], &[SubType::Roll]);
    game.next_turn();

    // A distance card on an empty board is not legal.
    assert_eq!(game.process_player_turn(0), Err(GameError::IllegalPlay));
    assert_eq!(game.player_hand.len(), 2);
    assert!(game.player_board.is_none());

    // An index past the hand is rejected.
    assert_eq!(game.process_player_turn(9), Err(GameError::IllegalPlay));

    // The opponent may not act during the player's turn.
    assert_eq!(game.process_opponent_turn(0), Err(GameError::IllegalPlay));
    assert_eq!(game.opponent_hand.len(), 1);
    assert!(game.opponent_board.is_none());
    assert_eq!(game.turn, TurnState::PlayerTurn);
    assert_eq!(game.phase, GameState::DuringTurn);

    // Once a play is accepted, the same side is locked out until the
    // turn machine cycles.
    assert_eq!(game.process_player_turn(1), Ok(()));
    assert_eq!(game.process_player_turn(0), Err(GameError::IllegalPlay));
    assert_conserved(&game);
}

#[test]
fn turns_alternate_with_each_successful_play() {
    let mut game = craft_game(
        &[SubType::Roll, SubType::Accident, SubType::Repairs],
        &[SubType::Roll, SubType::Accident, SubType::Repairs],
    );

    // The first transition out of NoTurn hands the turn to the player.
    game.next_turn();
    assert_eq!(game.turn, TurnState::PlayerTurn);

    // Five successful plays; the owner of turn n (counting from 0) is
    // the player exactly when n is even.
    for n in 0..5 {
        let expected = if n % 2 == 0 {
            TurnState::PlayerTurn
        } else {
            TurnState::OpponentTurn
        };
        assert_eq!(game.turn, expected);
        let result = if n % 2 == 0 {
            game.process_player_turn(0)
        } else {
            game.process_opponent_turn(0)
        };
        assert_eq!(result, Ok(()));
        game.next_turn();
    }
    assert_eq!(game.turn, TurnState::OpponentTurn);
    assert_conserved(&game);
}
