use tichu::{
    get_card_combination, sort_cards_for_hand, Card, CardSuit, CardValue, Deck, ValidCardCombos,
};

fn card(suit: CardSuit, value: u8) -> Card {
    Card { suit, value: CardValue(value) }
}

#[test]
fn unequal_pair_is_invalid() {
    let cards = vec![card(CardSuit::Sword, 2), card(CardSuit::Jade, 7)];
    assert_eq!(get_card_combination(&cards), None);
}

#[test]
fn pair_of_sevens_has_value_seven() {
    let cards = vec![card(CardSuit::Sword, 7), card(CardSuit::Jade, 7)];
    match get_card_combination(&cards) {
        Some(ValidCardCombos::Pair(p)) => {
            assert_eq!(p.value, CardValue(7));
            assert_eq!(p.cards, vec![card(CardSuit::Sword, 7), card(CardSuit::Jade, 7)]);
        }
        other => panic!("expected a pair, got {:?}", other),
    }
}

#[test]
fn mixed_run_of_five_is_sequence_from_three() {
    let cards = vec![
        card(CardSuit::Pagoda, 3),
        card(CardSuit::Star, 4),
        card(CardSuit::Jade, 5),
        card(CardSuit::Pagoda, 6),
        card(CardSuit::Sword, 7),
    ];
    match get_card_combination(&cards) {
        Some(ValidCardCombos::Sequence(s)) => {
            assert_eq!(s.starting_value, CardValue(3));
            assert_eq!(s.number_of_cards, 5);
        }
        other => panic!("expected a sequence, got {:?}", other),
    }
}

#[test]
fn one_suit_run_of_five_is_sequence_bomb() {
    let cards = vec![
        card(CardSuit::Pagoda, 3),
        card(CardSuit::Pagoda, 4),
        card(CardSuit::Pagoda, 5),
        card(CardSuit::Pagoda, 6),
        card(CardSuit::Pagoda, 7),
    ];
    match get_card_combination(&cards) {
        Some(ValidCardCombos::SequenceBomb(s)) => {
            assert_eq!(s.starting_value, CardValue(3));
            assert_eq!(s.suit, CardSuit::Pagoda);
            assert_eq!(s.number_of_cards, 5);
        }
        other => panic!("expected a sequence bomb, got {:?}", other),
    }
}

#[test]
fn full_house_has_trio_value() {
    let cards = vec![
        card(CardSuit::Pagoda, 14),
        card(CardSuit::Star, 14),
        card(CardSuit::Jade, 14),
        card(CardSuit::Pagoda, 15),
        card(CardSuit::Sword, 15),
    ];
    match get_card_combination(&cards) {
        Some(ValidCardCombos::FullHouse(f)) => assert_eq!(f.trio_value, CardValue(14)),
        other => panic!("expected a full house, got {:?}", other),
    }
    // leading pair, trailing trio
    let cards = vec![
        card(CardSuit::Star, 9),
        card(CardSuit::Sword, 4),
        card(CardSuit::Jade, 9),
        card(CardSuit::Pagoda, 9),
        card(CardSuit::Jade, 4),
    ];
    match get_card_combination(&cards) {
        Some(ValidCardCombos::FullHouse(f)) => assert_eq!(f.trio_value, CardValue(9)),
        other => panic!("expected a full house, got {:?}", other),
    }
}

#[test]
fn classification_ignores_input_order() {
    let a = vec![
        card(CardSuit::Sword, 7),
        card(CardSuit::Jade, 5),
        card(CardSuit::Star, 6),
        card(CardSuit::Pagoda, 4),
        card(CardSuit::Jade, 3),
        card(CardSuit::Sword, 8),
    ];
    let mut b = a.clone();
    b.reverse();
    let ra = get_card_combination(&a);
    assert_eq!(ra, get_card_combination(&b));
    match ra {
        Some(ValidCardCombos::Sequence(s)) => {
            assert_eq!(s.number_of_cards, 6);
            assert_eq!(s.starting_value, CardValue(3));
            assert_eq!(s.cards[0], card(CardSuit::Jade, 3));
            assert_eq!(s.cards[5], card(CardSuit::Sword, 8));
        }
        other => panic!("expected a sequence of six, got {:?}", other),
    }
}

#[test]
fn three_adjacent_pairs_form_sequence_of_pairs() {
    let cards = vec![
        card(CardSuit::Sword, 10),
        card(CardSuit::Jade, 9),
        card(CardSuit::Star, 11),
        card(CardSuit::Pagoda, 9),
        card(CardSuit::Star, 10),
        card(CardSuit::Jade, 11),
    ];
    match get_card_combination(&cards) {
        Some(ValidCardCombos::SequenceOfPairs(s)) => {
            assert_eq!(s.number_of_pairs, 3);
            assert_eq!(s.starting_value, CardValue(9));
        }
        other => panic!("expected a sequence of pairs, got {:?}", other),
    }
}

#[test]
fn pairs_that_are_not_adjacent_are_invalid() {
    let cards = vec![
        card(CardSuit::Sword, 4),
        card(CardSuit::Jade, 4),
        card(CardSuit::Star, 9),
        card(CardSuit::Pagoda, 9),
    ];
    assert_eq!(get_card_combination(&cards), None);
}

#[test]
fn special_cards_only_play_alone() {
    let noop = CardValue::noop();
    let dog = Card { suit: CardSuit::Dog, value: noop };
    let dragon = Card { suit: CardSuit::Dragon, value: noop };
    assert_eq!(get_card_combination(&vec![dog, dragon]), None);
    match get_card_combination(&vec![dragon]) {
        Some(ValidCardCombos::Single(s)) => assert_eq!(s.0, dragon),
        other => panic!("expected a single, got {:?}", other),
    }
}

#[test]
fn run_with_a_gap_is_invalid() {
    let cards = vec![
        card(CardSuit::Sword, 2),
        card(CardSuit::Jade, 3),
        card(CardSuit::Star, 4),
        card(CardSuit::Pagoda, 5),
        card(CardSuit::Sword, 6),
        card(CardSuit::Sword, 8),
    ];
    assert_eq!(get_card_combination(&cards), None);
}

#[test]
fn sort_puts_special_cards_first_in_fixed_order() {
    let mut cards = vec![
        card(CardSuit::Star, 2),
        Card { suit: CardSuit::Dragon, value: CardValue::noop() },
        card(CardSuit::Sword, 2),
        Card { suit: CardSuit::MahJong, value: CardValue::noop() },
        card(CardSuit::Jade, 14),
        Card { suit: CardSuit::Phoenix, value: CardValue::noop() },
        Card { suit: CardSuit::Dog, value: CardValue::noop() },
    ];
    sort_cards_for_hand(&mut cards);
    let suits: Vec<CardSuit> = cards.iter().map(|c| c.suit).collect();
    assert_eq!(
        suits,
        vec![
            CardSuit::MahJong,
            CardSuit::Dog,
            CardSuit::Phoenix,
            CardSuit::Dragon,
            CardSuit::Sword,
            CardSuit::Star,
            CardSuit::Jade,
        ]
    );
}

#[test]
fn shuffle_keeps_the_deck_cards() {
    let fresh = Deck::new();
    assert_eq!(fresh.0.len(), 56);
    let mut deck = Deck::new();
    deck.shuffle();
    let mut a = fresh.0.clone();
    let mut b = deck.0.clone();
    sort_cards_for_hand(&mut a);
    sort_cards_for_hand(&mut b);
    assert_eq!(a, b);
    assert_eq!(a, fresh.0);
}

#[test]
fn add_one_steps_up_a_rank() {
    assert_eq!(CardValue(7).add_one(), Some(CardValue(8)));
    assert_eq!(CardValue(255).add_one(), None);
}
