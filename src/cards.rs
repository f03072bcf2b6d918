use vstd::prelude::*;

verus! {

/// The eight suits of a Tichu deck: four ranked suits and four special cards.
/// The declaration order is the tiebreak order among cards of equal value.
#[derive(Clone, Copy, Debug, PartialEq, Eq, Structural, Hash)]
pub enum CardSuit {
    Sword,
    Jade,
    Pagoda,
    Star,
    MahJong,
    Dog,
    Phoenix,
    Dragon,
}

impl CardSuit {
    /// Position of the suit in the tiebreak order.
    pub open spec fn spec_rank(self) -> nat {
        match self {
            CardSuit::Sword => 0,
            CardSuit::Jade => 1,
            CardSuit::Pagoda => 2,
            CardSuit::Star => 3,
            CardSuit::MahJong => 4,
            CardSuit::Dog => 5,
            CardSuit::Phoenix => 6,
            CardSuit::Dragon => 7,
        }
    }

    /// The four named cards that carry no rank.
    pub open spec fn spec_is_special(self) -> bool {
        self.spec_rank() >= 4
    }

    pub fn rank(&self) -> (r: u8)
        ensures
            r == self.spec_rank(),
    {
        match self {
            CardSuit::Sword => 0,
            CardSuit::Jade => 1,
            CardSuit::Pagoda => 2,
            CardSuit::Star => 3,
            CardSuit::MahJong => 4,
            CardSuit::Dog => 5,
            CardSuit::Phoenix => 6,
            CardSuit::Dragon => 7,
        }
    }

    pub fn is_special(&self) -> (r: bool)
        ensures
            r == self.spec_is_special(),
    {
        self.rank() >= 4
    }
}

/// Rank of a card: 2 to 14 for the ranked suits (Ace high), 15 reserved
/// for ordering above the Ace, and 0 for the special cards.
#[derive(Clone, Copy, Debug, PartialEq, Eq, Structural, Hash)]
pub struct CardValue(pub u8);

/// The value carried by the four special cards.
pub const NO_RANK: u8 = 0;

impl CardValue {
    /// The "no rank" value of a special card.
    pub fn noop() -> (r: CardValue)
        ensures
            r.0 == NO_RANK,
    {
        CardValue(NO_RANK)
    }

    /// The next rank up, when there is one.
    pub fn add_one(&self) -> (r: Option<CardValue>)
        ensures
            self.0 < 255 ==> r == Some(CardValue((self.0 + 1) as u8)),
            self.0 == 255 ==> r is None,
    {
        if self.0 < 255 {
            Some(CardValue(self.0 + 1))
        } else {
            None
        }
    }
}

#[derive(Clone, Copy, Debug, PartialEq, Eq, Structural, Hash)]
pub struct Card {
    pub suit: CardSuit,
    pub value: CardValue,
}

/// Sort key of a card: by value, then by suit.
pub open spec fn card_key(c: Card) -> int {
    c.value.0 as int * 8 + c.suit.spec_rank() as int
}

/// A card as it occurs in a deck: special suits carry no rank, ranked suits
/// carry a value above it.
pub open spec fn card_wf(c: Card) -> bool {
    c.suit.spec_is_special() <==> c.value.0 == NO_RANK
}

pub proof fn lemma_card_key_injective(a: Card, b: Card)
    requires
        card_key(a) == card_key(b),
    ensures
        a == b,
{
    assert(a.value.0 == b.value.0);
    assert(a.suit.spec_rank() == b.suit.spec_rank());
}

/// Whether `a` comes no later than `b` in hand order.
pub fn card_le(a: &Card, b: &Card) -> (r: bool)
    ensures
        r == (card_key(*a) <= card_key(*b)),
{
    let ka: u16 = a.value.0 as u16 * 8 + a.suit.rank() as u16;
    let kb: u16 = b.value.0 as u16 * 8 + b.suit.rank() as u16;
    ka <= kb
}

/// The special card at position `i` (below 4) of a fresh deck.
pub open spec fn deck_special(i: int) -> CardSuit {
    if i == 0 {
        CardSuit::MahJong
    } else if i == 1 {
        CardSuit::Dog
    } else if i == 2 {
        CardSuit::Phoenix
    } else {
        CardSuit::Dragon
    }
}

/// The ranked suit with tiebreak position `i` (below 4).
pub open spec fn ranked_suit(i: int) -> CardSuit {
    if i == 0 {
        CardSuit::Sword
    } else if i == 1 {
        CardSuit::Jade
    } else if i == 2 {
        CardSuit::Pagoda
    } else {
        CardSuit::Star
    }
}

/// Card at position `i` of a fresh deck: the four special cards, then
/// values 2 to 14, each in the four ranked suits.
pub open spec fn deck_card(i: int) -> Card {
    if i < 4 {
        Card { suit: deck_special(i), value: CardValue(NO_RANK) }
    } else {
        Card { suit: ranked_suit((i - 4) % 4), value: CardValue((2 + (i - 4) / 4) as u8) }
    }
}

pub const DECK_SIZE: usize = 56;

/// A full deck of 56 cards.
#[derive(Clone, Debug)]
pub struct Deck(pub Vec<Card>);

fn ranked_suit_at(i: u8) -> (r: CardSuit)
    requires
        i < 4,
    ensures
        r == ranked_suit(i as int),
{
    if i == 0 {
        CardSuit::Sword
    } else if i == 1 {
        CardSuit::Jade
    } else if i == 2 {
        CardSuit::Pagoda
    } else {
        CardSuit::Star
    }
}

/// Relies on rand's `SliceRandom::shuffle`, which only swaps elements of
/// the slice: the result is a permutation of the input.
#[verifier::external_body]
fn shuffle_cards(cards: &mut Vec<Card>)
    ensures
        final(cards)@.to_multiset() == old(cards)@.to_multiset(),
{
    rand::seq::SliceRandom::shuffle(cards.as_mut_slice(), &mut rand::thread_rng());
}

impl Deck {
    pub fn new() -> (d: Deck)
        ensures
            d.0@.len() == DECK_SIZE,
            forall|i: int| 0 <= i < DECK_SIZE ==> #[trigger] d.0@[i] == deck_card(i),
    {
        let mut v: Vec<Card> = Vec::new();
        v.push(Card { suit: CardSuit::MahJong, value: CardValue::noop() });
        v.push(Card { suit: CardSuit::Dog, value: CardValue::noop() });
        v.push(Card { suit: CardSuit::Phoenix, value: CardValue::noop() });
        v.push(Card { suit: CardSuit::Dragon, value: CardValue::noop() });
        let mut value: u8 = 2;
        while value <= 14
            invariant
                2 <= value <= 15,
                v@.len() == 4 + 4 * (value - 2),
                forall|i: int| 0 <= i < v@.len() ==> #[trigger] v@[i] == deck_card(i),
            decreases 15 - value,
        {
            let mut s: u8 = 0;
            while s < 4
                invariant
                    2 <= value <= 14,
                    s <= 4,
                    v@.len() == 4 + 4 * (value - 2) + s,
                    forall|i: int| 0 <= i < v@.len() ==> #[trigger] v@[i] == deck_card(i),
                decreases 4 - s,
            {
                let c = Card { suit: ranked_suit_at(s), value: CardValue(value) };
                proof {
                    let n = v@.len() as int;
                    assert((n - 4) % 4 == s as int && (n - 4) / 4 == value - 2);
                }
                v.push(c);
                s = s + 1;
            }
            value = value + 1;
        }
        Deck(v)
    }

    /// Puts the cards in a random order.
    pub fn shuffle(&mut self)
        ensures
            final(self).0@.to_multiset() == old(self).0@.to_multiset(),
    {
        shuffle_cards(&mut self.0);
    }
}

} // verus!
