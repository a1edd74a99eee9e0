use mille_bornes::cards::build_catalog;
use mille_bornes::cards::ActionType;
use mille_bornes::cards::Card;
use mille_bornes::cards::CardType;
use mille_bornes::cards::SubType;
use mille_bornes::cards::CATALOG_SIZE;

fn count_kind(cards: &[Card], kind: SubType) -> usize {
    cards.iter().filter(|c| c.sub_type == kind).count()
}

const EXPECTED_COUNTS: [(SubType, usize); 19] = [
    (SubType::Accident, 3),
    (SubType::OutOfGas, 3),
    (SubType::FlatTyre, 3),
    (SubType::SpeedLimit, 4),
    (SubType::Stop, 5),
    (SubType::Repairs, 6),
    (SubType::Gasoline, 6),
    (SubType::SpareTyre, 6),
    (SubType::EndOfLimit, 6),
    (SubType::Roll, 14),
    (SubType::DrivingAce, 1),
    (SubType::ExtraTank, 1),
    (SubType::PunctureProof, 1),
    (SubType::RightOfWay, 1),
    (SubType::TwentyFive, 10),
    (SubType::Fifty, 10),
    (SubType::SeventyFive, 10),
    (SubType::OneHundred, 12),
    (SubType::TwoHundred, 4),
];

#[test]
fn catalog_has_fixed_counts() {
    let cards = build_catalog();
    assert_eq!(cards.len(), CATALOG_SIZE);
    assert_eq!(CATALOG_SIZE, 106);
    for (kind, expected) in EXPECTED_COUNTS {
        assert_eq!(count_kind(&cards, kind), expected);
    }
    assert_eq!(count_kind(&cards, SubType::NoCard), 0);
}

#[test]
fn catalog_cards_are_consistent() {
    let cards = build_catalog();
    for card in &cards {
        let expected_category = match card.sub_type {
            SubType::Accident
            | SubType::OutOfGas
            | SubType::SpeedLimit
            | SubType::FlatTyre
            | SubType::Stop => CardType::Hazard,
            SubType::Repairs
            | SubType::Gasoline
            | SubType::EndOfLimit
            | SubType::SpareTyre
            | SubType::Roll => CardType::Remedy,
            SubType::PunctureProof
            | SubType::ExtraTank
            | SubType::DrivingAce
            | SubType::RightOfWay => CardType::Safety,
            SubType::TwentyFive
            | SubType::Fifty
            | SubType::SeventyFive
            | SubType::OneHundred
            | SubType::TwoHundred => CardType::Distance,
            SubType::NoCard => panic!("no catalog card may carry NoCard"),
        };
        assert_eq!(card.card_type, expected_category);
        let expected_stance = if card.card_type == CardType::Hazard {
            ActionType::Offensive
        } else {
            ActionType::Defensive
        };
        assert_eq!(card.action_type, expected_stance);
    }
}

#[test]
fn card_names_follow_the_kind() {
    assert_eq!(Card::new(SubType::Accident).name(), "Accident");
    assert_eq!(Card::new(SubType::SpareTyre).name(), "Spare Tyre");
    assert_eq!(Card::new(SubType::Roll).name(), "Roll");
    assert_eq!(Card::new(SubType::RightOfWay).name(), "Right of Way");
    assert_eq!(Card::new(SubType::TwoHundred).name(), "200km");
}
