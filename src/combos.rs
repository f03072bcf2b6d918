use crate::cards::Card;
use crate::cards::CardSuit;
use crate::cards::CardValue;
use vstd::prelude::*;

verus! {

/// One card played alone.
#[derive(Clone, Debug, PartialEq, Eq)]
pub struct Single(pub Card);

/// Two cards of equal value.
#[derive(Clone, Debug, PartialEq, Eq)]
pub struct Pair {
    pub cards: Vec<Card>,
    pub value: CardValue,
}

/// Three cards of equal value.
#[derive(Clone, Debug, PartialEq, Eq)]
pub struct Trio {
    pub cards: Vec<Card>,
    pub value: CardValue,
}

/// Four cards of equal value.
#[derive(Clone, Debug, PartialEq, Eq)]
pub struct BombOf4 {
    pub cards: Vec<Card>,
    pub value: CardValue,
}

/// A trio and a pair.
#[derive(Clone, Debug, PartialEq, Eq)]
pub struct FullHouse {
    pub cards: Vec<Card>,
    pub trio_value: CardValue,
}

/// Five or more cards of consecutive values.
#[derive(Clone, Debug, PartialEq, Eq)]
pub struct Sequence {
    pub cards: Vec<Card>,
    pub number_of_cards: usize,
    pub starting_value: CardValue,
}

/// Five cards of consecutive values, all of one suit.
#[derive(Clone, Debug, PartialEq, Eq)]
pub struct SequenceBomb {
    pub cards: Vec<Card>,
    pub number_of_cards: usize,
    pub starting_value: CardValue,
    pub suit: CardSuit,
}

/// Two or more pairs of consecutive values.
#[derive(Clone, Debug, PartialEq, Eq)]
pub struct SequenceOfPairs {
    pub cards: Vec<Card>,
    pub number_of_pairs: usize,
    pub starting_value: CardValue,
}

/// A legal play, with the cards in hand order and its comparison key.
#[derive(Clone, Debug, PartialEq, Eq)]
pub enum ValidCardCombos {
    Single(Single),
    Pair(Pair),
    Trio(Trio),
    BombOf4(BombOf4),
    FullHouse(FullHouse),
    Sequence(Sequence),
    SequenceBomb(SequenceBomb),
    SequenceOfPairs(SequenceOfPairs),
}

/// Mathematical model of a combination: its variant, its cards and its key.
pub enum ComboModel {
    Single { card: Card },
    Pair { cards: Seq<Card>, value: u8 },
    Trio { cards: Seq<Card>, value: u8 },
    BombOf4 { cards: Seq<Card>, value: u8 },
    FullHouse { cards: Seq<Card>, trio_value: u8 },
    Sequence { cards: Seq<Card>, number_of_cards: nat, starting_value: u8 },
    SequenceBomb { cards: Seq<Card>, number_of_cards: nat, starting_value: u8, suit: CardSuit },
    SequenceOfPairs { cards: Seq<Card>, number_of_pairs: nat, starting_value: u8 },
}

impl View for ValidCardCombos {
    type V = ComboModel;

    open spec fn view(&self) -> ComboModel {
        match self {
            ValidCardCombos::Single(s) => ComboModel::Single { card: s.0 },
            ValidCardCombos::Pair(p) => ComboModel::Pair { cards: p.cards@, value: p.value.0 },
            ValidCardCombos::Trio(t) => ComboModel::Trio { cards: t.cards@, value: t.value.0 },
            ValidCardCombos::BombOf4(b) => ComboModel::BombOf4 { cards: b.cards@, value: b.value.0 },
            ValidCardCombos::FullHouse(f) => ComboModel::FullHouse {
                cards: f.cards@,
                trio_value: f.trio_value.0,
            },
            ValidCardCombos::Sequence(s) => ComboModel::Sequence {
                cards: s.cards@,
                number_of_cards: s.number_of_cards as nat,
                starting_value: s.starting_value.0,
            },
            ValidCardCombos::SequenceBomb(s) => ComboModel::SequenceBomb {
                cards: s.cards@,
                number_of_cards: s.number_of_cards as nat,
                starting_value: s.starting_value.0,
                suit: s.suit,
            },
            ValidCardCombos::SequenceOfPairs(s) => ComboModel::SequenceOfPairs {
                cards: s.cards@,
                number_of_pairs: s.number_of_pairs as nat,
                starting_value: s.starting_value.0,
            },
        }
    }
}

} // verus!
