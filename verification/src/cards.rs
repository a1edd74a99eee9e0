//! The card catalog: categories, sub-kinds, stances, and the fixed
//! multiset of cards a fresh game starts from.

use vstd::prelude::*;

verus! {

broadcast use vstd::string::to_string_from_display_ensures_for_str;

/// How many copies of each card the catalog holds.
pub const ACCIDENT: usize = 3;
pub const OUT_OF_GAS: usize = 3;
pub const FLAT_TYRE: usize = 3;
pub const SPEED_LIMIT: usize = 4;
pub const STOP: usize = 5;

pub const REPAIRS: usize = 6;
pub const GASOLINE: usize = 6;
pub const SPARE_TYRE: usize = 6;
pub const END_OF_LIMIT: usize = 6;
pub const ROLL: usize = 14;

pub const DRIVING_ACE: usize = 1;
pub const EXTRA_TANK: usize = 1;
pub const PUNCTURE_PROOF: usize = 1;
pub const RIGHT_OF_WAY: usize = 1;

pub const TWENTY_FIVE: usize = 10;
pub const FIFTY: usize = 10;
pub const SEVENTY_FIVE: usize = 10;
pub const ONE_HUNDRED: usize = 12;
pub const TWO_HUNDRED: usize = 4;

/// The total number of cards in the catalog.
pub const CATALOG_SIZE: usize = 106;

/// The four card categories.
#[derive(Clone, Copy, Debug, PartialEq, Eq, Structural)]
pub enum CardType {
    Hazard,
    Remedy,
    Safety,
    Distance,
}

/// The nineteen card sub-kinds, plus `NoCard`, which stands for an empty
/// board slot when a playability question is asked.
#[derive(Clone, Copy, Debug, PartialEq, Eq, Structural)]
pub enum SubType {
    Accident,
    OutOfGas,
    SpeedLimit,
    FlatTyre,
    Stop,
    Repairs,
    Gasoline,
    EndOfLimit,
    SpareTyre,
    Roll,
    PunctureProof,
    ExtraTank,
    DrivingAce,
    RightOfWay,
    TwentyFive,
    Fifty,
    SeventyFive,
    OneHundred,
    TwoHundred,
    NoCard,
}

/// Whether a card is played against the opponent or for oneself.
#[derive(Clone, Copy, Debug, PartialEq, Eq, Structural)]
pub enum ActionType {
    Offensive,
    Defensive,
}

/// A single card. Its category and stance are determined by its sub-kind;
/// `wf_card` states that consistency and `Card::new` establishes it.
#[derive(Clone, Copy, Debug, PartialEq, Eq, Structural)]
pub struct Card {
    pub card_type: CardType,
    pub sub_type: SubType,
    pub action_type: ActionType,
}

/// The category each sub-kind belongs to.
pub open spec fn category_of(kind: SubType) -> CardType {
    match kind {
        SubType::Accident => CardType::Hazard,
        SubType::OutOfGas => CardType::Hazard,
        SubType::SpeedLimit => CardType::Hazard,
        SubType::FlatTyre => CardType::Hazard,
        SubType::Stop => CardType::Hazard,
        SubType::Repairs => CardType::Remedy,
        SubType::Gasoline => CardType::Remedy,
        SubType::EndOfLimit => CardType::Remedy,
        SubType::SpareTyre => CardType::Remedy,
        SubType::Roll => CardType::Remedy,
        SubType::PunctureProof => CardType::Safety,
        SubType::ExtraTank => CardType::Safety,
        SubType::DrivingAce => CardType::Safety,
        SubType::RightOfWay => CardType::Safety,
        SubType::TwentyFive => CardType::Distance,
        SubType::Fifty => CardType::Distance,
        SubType::SeventyFive => CardType::Distance,
        SubType::OneHundred => CardType::Distance,
        SubType::TwoHundred => CardType::Distance,
        SubType::NoCard => CardType::Hazard,
    }
}

/// Hazards are offensive; every other card is defensive.
pub open spec fn stance_of(kind: SubType) -> ActionType {
    if category_of(kind) == CardType::Hazard {
        ActionType::Offensive
    } else {
        ActionType::Defensive
    }
}

/// The display name of each sub-kind.
pub open spec fn name_of(kind: SubType) -> Seq<char> {
    match kind {
        SubType::Accident => "Accident"@,
        SubType::OutOfGas => "Out of Gas"@,
        SubType::SpeedLimit => "Speed Limit"@,
        SubType::FlatTyre => "Flat Tyre"@,
        SubType::Stop => "Stop"@,
        SubType::Repairs => "Repairs"@,
        SubType::Gasoline => "Gasoline"@,
        SubType::EndOfLimit => "End of Limit"@,
        SubType::SpareTyre => "Spare Tyre"@,
        SubType::Roll => "Roll"@,
        SubType::PunctureProof => "Puncture Proof"@,
        SubType::ExtraTank => "Extra Tank"@,
        SubType::DrivingAce => "Driving Ace"@,
        SubType::RightOfWay => "Right of Way"@,
        SubType::TwentyFive => "25km"@,
        SubType::Fifty => "50km"@,
        SubType::SeventyFive => "75km"@,
        SubType::OneHundred => "100km"@,
        SubType::TwoHundred => "200km"@,
        SubType::NoCard => ""@,
    }
}

/// The canonical card of a sub-kind.
pub open spec fn card_of(kind: SubType) -> Card {
    Card { card_type: category_of(kind), sub_type: kind, action_type: stance_of(kind) }
}

/// A well-formed card: a real sub-kind whose category and stance agree
/// with the catalog.
pub open spec fn wf_card(c: Card) -> bool {
    &&& c.sub_type != SubType::NoCard
    &&& c.card_type == category_of(c.sub_type)
    &&& c.action_type == stance_of(c.sub_type)
}

/// All cards of a zone are well-formed.
pub open spec fn wf_cards(s: Seq<Card>) -> bool {
    forall|i: int| 0 <= i < s.len() ==> wf_card(#[trigger] s[i])
}

/// How many copies the full catalog holds of each sub-kind.
pub open spec fn catalog_count(kind: SubType) -> int {
    match kind {
        SubType::Accident => 3,
        SubType::OutOfGas => 3,
        SubType::SpeedLimit => 4,
        SubType::FlatTyre => 3,
        SubType::Stop => 5,
        SubType::Repairs => 6,
        SubType::Gasoline => 6,
        SubType::EndOfLimit => 6,
        SubType::SpareTyre => 6,
        SubType::Roll => 14,
        SubType::PunctureProof => 1,
        SubType::ExtraTank => 1,
        SubType::DrivingAce => 1,
        SubType::RightOfWay => 1,
        SubType::TwentyFive => 10,
        SubType::Fifty => 10,
        SubType::SeventyFive => 10,
        SubType::OneHundred => 12,
        SubType::TwoHundred => 4,
        SubType::NoCard => 0,
    }
}

/// How many cards of sub-kind `kind` the sequence holds.
pub open spec fn kind_count(s: Seq<Card>, kind: SubType) -> int
    decreases s.len(),
{
    if s.len() == 0 {
        0
    } else {
        kind_count(s.drop_last(), kind) + (if s.last().sub_type == kind {
            1int
        } else {
            0int
        })
    }
}

/// Appending one card raises its own count by one and no other.
pub proof fn lemma_kind_count_push(s: Seq<Card>, c: Card)
    ensures
        forall|k: SubType| #[trigger]
            kind_count(s.push(c), k) == kind_count(s, k) + (if c.sub_type == k {
                1int
            } else {
                0int
            }),
{
    assert(s.push(c).drop_last() =~= s);
}

/// Removing the card at `i` lowers its own count by one and no other.
pub proof fn lemma_kind_count_remove(s: Seq<Card>, i: int)
    requires
        0 <= i < s.len(),
    ensures
        forall|k: SubType| #[trigger]
            kind_count(s.remove(i), k) == kind_count(s, k) - (if s[i].sub_type == k {
                1int
            } else {
                0int
            }),
    decreases s.len(),
{
    if i == s.len() - 1 {
        assert(s.remove(i) =~= s.drop_last());
    } else {
        lemma_kind_count_remove(s.drop_last(), i);
        assert(s.remove(i).drop_last() =~= s.drop_last().remove(i));
        assert forall|k: SubType|
            kind_count(s.remove(i), k) == kind_count(s, k) - (if s[i].sub_type == k {
                1int
            } else {
                0int
            }) by {
            assert(s.remove(i).last() == s.last());
            assert(s.drop_last()[i] == s[i]);
            assert(kind_count(s.remove(i), k) == kind_count(s.remove(i).drop_last(), k) + (
            if s.remove(i).last().sub_type == k {
                1int
            } else {
                0int
            }));
            assert(kind_count(s, k) == kind_count(s.drop_last(), k) + (if s.last().sub_type == k {
                1int
            } else {
                0int
            }));
        }
    }
}

/// Dropping the last card lowers its own count by one and no other.
pub proof fn lemma_kind_count_drop_last(s: Seq<Card>)
    requires
        s.len() > 0,
    ensures
        forall|k: SubType| #[trigger]
            kind_count(s.drop_last(), k) == kind_count(s, k) - (if s.last().sub_type == k {
                1int
            } else {
                0int
            }),
{
}

impl Card {
    /// Builds the canonical card of a sub-kind.
    pub fn new(kind: SubType) -> (c: Card)
        requires
            kind != SubType::NoCard,
        ensures
            c == card_of(kind),
            wf_card(c),
    {
        let card_type = match kind {
            SubType::Accident | SubType::OutOfGas | SubType::SpeedLimit | SubType::FlatTyre
            | SubType::Stop => CardType::Hazard,
            SubType::Repairs | SubType::Gasoline | SubType::EndOfLimit | SubType::SpareTyre
            | SubType::Roll => CardType::Remedy,
            SubType::PunctureProof | SubType::ExtraTank | SubType::DrivingAce
            | SubType::RightOfWay => CardType::Safety,
            SubType::TwentyFive | SubType::Fifty | SubType::SeventyFive | SubType::OneHundred
            | SubType::TwoHundred => CardType::Distance,
            SubType::NoCard => CardType::Hazard,
        };
        let action_type = match card_type {
            CardType::Hazard => ActionType::Offensive,
            _ => ActionType::Defensive,
        };
        Card { card_type, sub_type: kind, action_type }
    }

    /// The card's display name.
    pub fn name(&self) -> (s: String)
        ensures
            s@ == name_of(self.sub_type),
    {
        match self.sub_type {
            SubType::Accident => "Accident".to_string(),
            SubType::OutOfGas => "Out of Gas".to_string(),
            SubType::SpeedLimit => "Speed Limit".to_string(),
            SubType::FlatTyre => "Flat Tyre".to_string(),
            SubType::Stop => "Stop".to_string(),
            SubType::Repairs => "Repairs".to_string(),
            SubType::Gasoline => "Gasoline".to_string(),
            SubType::EndOfLimit => "End of Limit".to_string(),
            SubType::SpareTyre => "Spare Tyre".to_string(),
            SubType::Roll => "Roll".to_string(),
            SubType::PunctureProof => "Puncture Proof".to_string(),
            SubType::ExtraTank => "Extra Tank".to_string(),
            SubType::DrivingAce => "Driving Ace".to_string(),
            SubType::RightOfWay => "Right of Way".to_string(),
            SubType::TwentyFive => "25km".to_string(),
            SubType::Fifty => "50km".to_string(),
            SubType::SeventyFive => "75km".to_string(),
            SubType::OneHundred => "100km".to_string(),
            SubType::TwoHundred => "200km".to_string(),
            SubType::NoCard => "".to_string(),
        }
    }
}

/// Pushes `n` copies of the canonical card of `kind`.
fn push_cards(cards: &mut Vec<Card>, kind: SubType, n: usize)
    requires
        kind != SubType::NoCard,
    ensures
        final(cards)@.len() == old(cards)@.len() + n,
        forall|k: SubType| #[trigger]
            kind_count(final(cards)@, k) == kind_count(old(cards)@, k) + (if k == kind {
                n as int
            } else {
                0int
            }),
        wf_cards(old(cards)@) ==> wf_cards(final(cards)@),
{
    let ghost orig = cards@;
    let mut i: usize = 0;
    while i < n
        invariant
            i <= n,
            kind != SubType::NoCard,
            cards@.len() == orig.len() + i,
            forall|k: SubType| #[trigger]
                kind_count(cards@, k) == kind_count(orig, k) + (if k == kind {
                    i as int
                } else {
                    0int
                }),
            wf_cards(orig) ==> wf_cards(cards@),
        decreases n - i,
    {
        let c = Card::new(kind);
        proof {
            lemma_kind_count_push(cards@, c);
        }
        cards.push(c);
        i = i + 1;
    }
}

/// Builds the full catalog: every card, with the fixed per-kind counts,
/// grouped by category.
pub fn build_catalog() -> (cards: Vec<Card>)
    ensures
        cards@.len() == CATALOG_SIZE,
        forall|k: SubType| #[trigger] kind_count(cards@, k) == catalog_count(k),
        wf_cards(cards@),
{
    let mut cards: Vec<Card> = Vec::new();

    push_cards(&mut cards, SubType::Accident, ACCIDENT);
    push_cards(&mut cards, SubType::OutOfGas, OUT_OF_GAS);
    push_cards(&mut cards, SubType::FlatTyre, FLAT_TYRE);
    push_cards(&mut cards, SubType::SpeedLimit, SPEED_LIMIT);
    push_cards(&mut cards, SubType::Stop, STOP);

    push_cards(&mut cards, SubType::Repairs, REPAIRS);
    push_cards(&mut cards, SubType::Gasoline, GASOLINE);
    push_cards(&mut cards, SubType::SpareTyre, SPARE_TYRE);
    push_cards(&mut cards, SubType::EndOfLimit, END_OF_LIMIT);
    push_cards(&mut cards, SubType::Roll, ROLL);

    push_cards(&mut cards, SubType::DrivingAce, DRIVING_ACE);
    push_cards(&mut cards, SubType::ExtraTank, EXTRA_TANK);
    push_cards(&mut cards, SubType::PunctureProof, PUNCTURE_PROOF);
    push_cards(&mut cards, SubType::RightOfWay, RIGHT_OF_WAY);

    push_cards(&mut cards, SubType::TwentyFive, TWENTY_FIVE);
    push_cards(&mut cards, SubType::Fifty, FIFTY);
    push_cards(&mut cards, SubType::SeventyFive, SEVENTY_FIVE);
    push_cards(&mut cards, SubType::OneHundred, ONE_HUNDRED);
    push_cards(&mut cards, SubType::TwoHundred, TWO_HUNDRED);

    cards
}

} // verus!
