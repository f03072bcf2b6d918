use crate::cards::{card_key, card_le, card_wf, lemma_card_key_injective, Card, CardSuit};
use crate::cards::CardValue;
use crate::combos::{
    BombOf4, ComboModel, FullHouse, Pair, Sequence, SequenceBomb, SequenceOfPairs, Single, Trio,
    ValidCardCombos,
};
use vstd::prelude::*;

verus! {

broadcast use vstd::seq_lib::group_to_multiset_ensures;

/// Cards in hand order: ascending by value, ties by suit.
pub open spec fn is_hand_sorted(s: Seq<Card>) -> bool {
    forall|i: int, j: int| 0 <= i < j < s.len() ==> card_key(#[trigger] s[i]) <= card_key(#[trigger] s[j])
}

/// `t` with `x` put before the first card that sorts above it.
pub open spec fn insert_in_order(t: Seq<Card>, x: Card) -> Seq<Card>
    decreases t.len(),
{
    if t.len() == 0 {
        seq![x]
    } else if card_key(x) <= card_key(t[0]) {
        seq![x] + t
    } else {
        seq![t[0]] + insert_in_order(t.drop_first(), x)
    }
}

/// The hand-ordered arrangement of a collection of cards.
pub open spec fn hand_order(cards: Seq<Card>) -> Seq<Card>
    decreases cards.len(),
{
    if cards.len() == 0 {
        cards
    } else {
        insert_in_order(hand_order(cards.drop_last()), cards.last())
    }
}

proof fn lemma_cons_to_multiset(a: Card, t: Seq<Card>)
    ensures
        (seq![a] + t).to_multiset() == t.to_multiset().insert(a),
{
    let u = seq![a] + t;
    assert(u.remove(0) =~= t);
    assert(u.remove(0).to_multiset() == u.to_multiset().remove(a));
    assert(u.contains(a)) by {
        assert(u[0] == a);
    }
    assert(u.to_multiset().count(a) > 0);
    assert(u.to_multiset() =~= t.to_multiset().insert(a));
}

proof fn lemma_insert_in_order(t: Seq<Card>, x: Card)
    requires
        is_hand_sorted(t),
    ensures
        is_hand_sorted(insert_in_order(t, x)),
        insert_in_order(t, x).to_multiset() == t.to_multiset().insert(x),
    decreases t.len(),
{
    let r = insert_in_order(t, x);
    if t.len() == 0 {
        lemma_cons_to_multiset(x, t);
        assert(r =~= seq![x] + t);
    } else if card_key(x) <= card_key(t[0]) {
        lemma_cons_to_multiset(x, t);
        assert forall|i: int, j: int| 0 <= i < j < r.len() implies card_key(#[trigger] r[i])
            <= card_key(#[trigger] r[j]) by {
            if i > 0 {
                assert(r[i] == t[i - 1] && r[j] == t[j - 1]);
            } else {
                assert(r[j] == t[j - 1]);
                assert(card_key(t[0]) <= card_key(t[j - 1]) || j - 1 == 0);
            }
        }
    } else {
        let d = t.drop_first();
        assert(is_hand_sorted(d)) by {
            assert forall|i: int, j: int| 0 <= i < j < d.len() implies card_key(#[trigger] d[i])
                <= card_key(#[trigger] d[j]) by {
                assert(d[i] == t[i + 1] && d[j] == t[j + 1]);
            }
        }
        lemma_insert_in_order(d, x);
        let rest = insert_in_order(d, x);
        lemma_cons_to_multiset(t[0], rest);
        lemma_cons_to_multiset(t[0], d);
        assert(t =~= seq![t[0]] + d);
        assert(r.to_multiset() =~= t.to_multiset().insert(x));
        assert forall|i: int, j: int| 0 <= i < j < r.len() implies card_key(#[trigger] r[i])
            <= card_key(#[trigger] r[j]) by {
            if i > 0 {
                assert(r[i] == rest[i - 1] && r[j] == rest[j - 1]);
            } else {
                let y = rest[j - 1];
                assert(rest.contains(y));
                assert(rest.to_multiset().count(y) > 0);
                if y != x {
                    assert(d.to_multiset().count(y) > 0);
                    assert(d.contains(y));
                    let k = choose|k: int| 0 <= k < d.len() && d[k] == y;
                    assert(t[k + 1] == y);
                }
            }
        }
    }
}

/// `hand_order` sorts its input and keeps every card.
pub proof fn lemma_hand_order(cards: Seq<Card>)
    ensures
        is_hand_sorted(hand_order(cards)),
        hand_order(cards).to_multiset() == cards.to_multiset(),
    decreases cards.len(),
{
    if cards.len() > 0 {
        let init = cards.drop_last();
        lemma_hand_order(init);
        lemma_insert_in_order(hand_order(init), cards.last());
        assert(cards =~= init.push(cards.last()));
        assert(init.push(cards.last()).to_multiset() == init.to_multiset().insert(cards.last()));
    }
}

/// Two hand-ordered arrangements of the same cards are identical.
pub proof fn lemma_hand_order_unique(s1: Seq<Card>, s2: Seq<Card>)
    requires
        is_hand_sorted(s1),
        is_hand_sorted(s2),
        s1.to_multiset() == s2.to_multiset(),
    ensures
        s1 == s2,
    decreases s1.len(),
{
    assert(s1.len() == s1.to_multiset().len() && s2.len() == s2.to_multiset().len());
    if s1.len() == 0 {
        assert(s2.len() == 0);
        assert(s1 =~= s2);
    } else {
        assert(s2.len() == s1.len());
        let a = s1[0];
        let b = s2[0];
        assert(s1.contains(a));
        assert(s1.to_multiset().count(a) > 0);
        assert(s2.to_multiset().count(a) > 0);
        assert(s2.contains(a));
        let j = choose|j: int| 0 <= j < s2.len() && s2[j] == a;
        if j > 0 {
            assert(card_key(s2[0]) <= card_key(s2[j]));
        }
        assert(s2.contains(b));
        assert(s2.to_multiset().count(b) > 0);
        assert(s1.to_multiset().count(b) > 0);
        assert(s1.contains(b));
        let k = choose|k: int| 0 <= k < s1.len() && s1[k] == b;
        if k > 0 {
            assert(card_key(s1[0]) <= card_key(s1[k]));
        }
        lemma_card_key_injective(a, b);
        let t1 = s1.remove(0);
        let t2 = s2.remove(0);
        assert(t1.to_multiset() == s1.to_multiset().remove(a));
        assert(t2.to_multiset() == s2.to_multiset().remove(b));
        assert(is_hand_sorted(t1)) by {
            assert forall|i: int, j: int| 0 <= i < j < t1.len() implies card_key(#[trigger] t1[i])
                <= card_key(#[trigger] t1[j]) by {
                assert(t1[i] == s1[i + 1] && t1[j] == s1[j + 1]);
            }
        }
        assert(is_hand_sorted(t2)) by {
            assert forall|i: int, j: int| 0 <= i < j < t2.len() implies card_key(#[trigger] t2[i])
                <= card_key(#[trigger] t2[j]) by {
                assert(t2[i] == s2[i + 1] && t2[j] == s2[j + 1]);
            }
        }
        lemma_hand_order_unique(t1, t2);
        assert(s1 =~= seq![a] + t1);
        assert(s2 =~= seq![b] + t2);
    }
}

/// A hand-ordered arrangement of the cards is `hand_order` of them.
pub proof fn lemma_hand_order_is(cards: Seq<Card>, s: Seq<Card>)
    requires
        is_hand_sorted(s),
        s.to_multiset() == cards.to_multiset(),
    ensures
        hand_order(cards) == s,
{
    lemma_hand_order(cards);
    lemma_hand_order_unique(hand_order(cards), s);
}

/// Sorts cards for display in a hand: ascending by value, cards of equal value
/// by suit (Sword, Jade, Pagoda, Star, then the special cards MahJong, Dog,
/// Phoenix, Dragon).
pub fn sort_cards_for_hand(cards: &mut Vec<Card>)
    ensures
        is_hand_sorted(final(cards)@),
        final(cards)@.to_multiset() == old(cards)@.to_multiset(),
        final(cards)@ == hand_order(old(cards)@),
{
    let ghost orig = cards@.to_multiset();
    let mut sorted: Vec<Card> = Vec::new();
    while cards.len() > 0
        invariant
            is_hand_sorted(sorted@),
            sorted@.to_multiset().add(cards@.to_multiset()) == orig,
            forall|i: int, j: int|
                0 <= i < sorted@.len() && 0 <= j < cards@.len() ==> card_key(#[trigger] sorted@[i])
                    <= card_key(#[trigger] cards@[j]),
        decreases cards@.len(),
    {
        let mut m: usize = 0;
        let mut i: usize = 1;
        while i < cards.len()
            invariant
                0 <= m < i <= cards@.len(),
                forall|j: int| 0 <= j < i ==> card_key(cards@[m as int]) <= card_key(#[trigger] cards@[j]),
            decreases cards@.len() - i,
        {
            if !card_le(&cards[m], &cards[i]) {
                m = i;
            }
            i = i + 1;
        }
        let ghost before = cards@;
        let ghost sorted_before = sorted@;
        let c = cards.remove(m);
        assert(cards@.to_multiset() == before.to_multiset().remove(c));
        sorted.push(c);
        assert(sorted@.to_multiset() == sorted_before.to_multiset().insert(c));
        assert(before.to_multiset().count(c) > 0);
        assert(sorted@.to_multiset().add(cards@.to_multiset()) =~= orig);
        assert forall|i: int, j: int|
            0 <= i < sorted@.len() && 0 <= j < cards@.len() implies card_key(#[trigger] sorted@[i])
                <= card_key(#[trigger] cards@[j]) by {
            if j < m {
                assert(cards@[j] == before[j]);
            } else {
                assert(cards@[j] == before[j + 1]);
            }
            if i < sorted_before.len() {
                assert(sorted@[i] == sorted_before[i]);
            }
        }
        assert(is_hand_sorted(sorted@)) by {
            assert forall|i: int, j: int| 0 <= i < j < sorted@.len() implies card_key(
                #[trigger] sorted@[i],
            ) <= card_key(#[trigger] sorted@[j]) by {
                if j < sorted_before.len() {
                    assert(sorted@[i] == sorted_before[i] && sorted@[j] == sorted_before[j]);
                } else {
                    assert(sorted@[i] == sorted_before[i]);
                    assert(before.contains(c));
                    let k = choose|k: int| 0 <= k < before.len() && before[k] == c;
                    assert(card_key(sorted_before[i]) <= card_key(before[k]));
                }
            }
        }
    }
    assert(sorted@.to_multiset() =~= orig);
    *cards = sorted;
    proof {
        lemma_hand_order_is(old(cards)@, cards@);
    }
}

/// Every card has the value of the first.
pub open spec fn same_value(s: Seq<Card>) -> bool {
    forall|i: int| 0 <= i < s.len() ==> #[trigger] s[i].value == s[0].value
}

/// Every card has the suit of the first.
pub open spec fn same_suit(s: Seq<Card>) -> bool {
    forall|i: int| 0 <= i < s.len() ==> #[trigger] s[i].suit == s[0].suit
}

/// No card is one of the four special cards.
pub open spec fn all_ranked(s: Seq<Card>) -> bool {
    forall|i: int| 0 <= i < s.len() ==> !(#[trigger] s[i].suit).spec_is_special()
}

/// Five hand-ordered cards: a leading trio and a trailing pair, or a
/// leading pair and a trailing trio.
pub open spec fn is_full_house(s: Seq<Card>) -> bool {
    s.len() == 5 && ((s[0].value == s[1].value && s[1].value == s[2].value && s[3].value
        == s[4].value) || (s[0].value == s[1].value && s[2].value == s[3].value && s[3].value
        == s[4].value))
}

/// At least five hand-ordered cards of consecutive values, one of each.
pub open spec fn is_run(s: Seq<Card>) -> bool {
    s.len() >= 5 && forall|i: int| 0 <= i < s.len() ==> (#[trigger] s[i]).value.0 == s[0].value.0 + i
}

/// At least two pairs of consecutive values in hand order, two cards of each.
pub open spec fn is_pair_run(s: Seq<Card>) -> bool {
    s.len() >= 4 && s.len() % 2 == 0 && forall|i: int|
        0 <= i < s.len() ==> (#[trigger] s[i]).value.0 == s[0].value.0 + i / 2
}

/// The combination that hand-ordered cards form, if any.
pub open spec fn classify_arranged(s: Seq<Card>) -> Option<ComboModel> {
    let n = s.len();
    if n == 0 {
        None
    } else if n == 1 {
        Some(ComboModel::Single { card: s[0] })
    } else if !all_ranked(s) {
        None
    } else if n == 2 {
        if same_value(s) {
            Some(ComboModel::Pair { cards: s, value: s[0].value.0 })
        } else {
            None
        }
    } else if n == 3 {
        if same_value(s) {
            Some(ComboModel::Trio { cards: s, value: s[0].value.0 })
        } else {
            None
        }
    } else if n == 4 && same_value(s) {
        Some(ComboModel::BombOf4 { cards: s, value: s[0].value.0 })
    } else if is_full_house(s) {
        Some(ComboModel::FullHouse { cards: s, trio_value: s[2].value.0 })
    } else if is_run(s) {
        if n == 5 && same_suit(s) {
            Some(
                ComboModel::SequenceBomb {
                    cards: s,
                    number_of_cards: n,
                    starting_value: s[0].value.0,
                    suit: s[0].suit,
                },
            )
        } else {
            Some(ComboModel::Sequence { cards: s, number_of_cards: n, starting_value: s[0].value.0 })
        }
    } else if is_pair_run(s) {
        Some(
            ComboModel::SequenceOfPairs {
                cards: s,
                number_of_pairs: n / 2,
                starting_value: s[0].value.0,
            },
        )
    } else {
        None
    }
}

/// The combination that a collection of cards forms, in whatever order the
/// cards are given.
pub open spec fn classification(cards: Seq<Card>) -> Option<ComboModel> {
    classify_arranged(hand_order(cards))
}

fn check_same_value(s: &Vec<Card>) -> (r: bool)
    requires
        s@.len() > 0,
    ensures
        r == same_value(s@),
{
    let mut i: usize = 1;
    while i < s.len()
        invariant
            1 <= i <= s@.len(),
            forall|j: int| 0 <= j < i ==> #[trigger] s@[j].value == s@[0].value,
        decreases s@.len() - i,
    {
        if s[i].value.0 != s[0].value.0 {
            return false;
        }
        i = i + 1;
    }
    true
}

fn check_same_suit(s: &Vec<Card>) -> (r: bool)
    requires
        s@.len() > 0,
    ensures
        r == same_suit(s@),
{
    let mut i: usize = 1;
    while i < s.len()
        invariant
            1 <= i <= s@.len(),
            forall|j: int| 0 <= j < i ==> #[trigger] s@[j].suit == s@[0].suit,
        decreases s@.len() - i,
    {
        if s[i].suit.rank() != s[0].suit.rank() {
            return false;
        }
        i = i + 1;
    }
    true
}

fn check_all_ranked(s: &Vec<Card>) -> (r: bool)
    ensures
        r == all_ranked(s@),
{
    let mut i: usize = 0;
    while i < s.len()
        invariant
            i <= s@.len(),
            forall|j: int| 0 <= j < i ==> !(#[trigger] s@[j].suit).spec_is_special(),
        decreases s@.len() - i,
    {
        if s[i].suit.is_special() {
            return false;
        }
        i = i + 1;
    }
    true
}

/// Whether each card's value exceeds the first card's by its position
/// divided by `width` (1: one card per value, 2: two cards per value).
fn check_steps(s: &Vec<Card>, width: usize) -> (r: bool)
    requires
        s@.len() > 0,
        width == 1 || width == 2,
    ensures
        r == forall|i: int| 0 <= i < s@.len() ==> (#[trigger] s@[i]).value.0 == s@[0].value.0 + i / (width as int),
{
    let base = s[0].value.0 as usize;
    let mut i: usize = 0;
    while i < s.len()
        invariant
            i <= s@.len(),
            base == s@[0].value.0,
            width == 1 || width == 2,
            forall|j: int| 0 <= j < i ==> (#[trigger] s@[j]).value.0 == s@[0].value.0 + j / (width as int),
        decreases s@.len() - i,
    {
        let v = s[i].value.0 as usize;
        let step = i / width;
        if v < step || v - step != base {
            return false;
        }
        i = i + 1;
    }
    true
}

fn copy_cards(cards: &Vec<Card>) -> (r: Vec<Card>)
    ensures
        r@ == cards@,
{
    let mut r: Vec<Card> = Vec::new();
    let mut i: usize = 0;
    while i < cards.len()
        invariant
            i <= cards@.len(),
            r@ == cards@.subrange(0, i as int),
        decreases cards@.len() - i,
    {
        r.push(cards[i]);
        i = i + 1;
        assert(r@ =~= cards@.subrange(0, i as int));
    }
    assert(r@ =~= cards@);
    r
}

/// Classifies a set of cards as one of the legal combinations, or `None`.
/// The cards may come in any order; the combination holds them in hand order.
pub fn get_card_combination(cards: &Vec<Card>) -> (r: Option<ValidCardCombos>)
    ensures
        r is None <==> classification(cards@) is None,
        r matches Some(c) ==> classification(cards@) == Some(c@),
{
    let mut s = copy_cards(cards);
    sort_cards_for_hand(&mut s);
    let ghost h = s@;
    assert(h == hand_order(cards@));
    let n = s.len();
    if n == 0 {
        return None;
    }
    if n == 1 {
        return Some(ValidCardCombos::Single(Single(s[0])));
    }
    if !check_all_ranked(&s) {
        return None;
    }
    let first = s[0];
    if n == 2 {
        return if check_same_value(&s) {
            Some(ValidCardCombos::Pair(Pair { cards: s, value: first.value }))
        } else {
            None
        };
    }
    if n == 3 {
        return if check_same_value(&s) {
            Some(ValidCardCombos::Trio(Trio { cards: s, value: first.value }))
        } else {
            None
        };
    }
    if n == 4 && check_same_value(&s) {
        return Some(ValidCardCombos::BombOf4(BombOf4 { cards: s, value: first.value }));
    }
    if n == 5 {
        let v0 = s[0].value.0;
        let v1 = s[1].value.0;
        let v2 = s[2].value.0;
        let v3 = s[3].value.0;
        let v4 = s[4].value.0;
        if (v0 == v1 && v1 == v2 && v3 == v4) || (v0 == v1 && v2 == v3 && v3 == v4) {
            let trio_value = s[2].value;
            return Some(ValidCardCombos::FullHouse(FullHouse { cards: s, trio_value }));
        }
    }
    if n >= 5 && check_steps(&s, 1) {
        return if n == 5 && check_same_suit(&s) {
            Some(
                ValidCardCombos::SequenceBomb(
                    SequenceBomb {
                        cards: s,
                        number_of_cards: n,
                        starting_value: first.value,
                        suit: first.suit,
                    },
                ),
            )
        } else {
            Some(
                ValidCardCombos::Sequence(
                    Sequence { cards: s, number_of_cards: n, starting_value: first.value },
                ),
            )
        };
    }
    if n % 2 == 0 && check_steps(&s, 2) {
        return Some(
            ValidCardCombos::SequenceOfPairs(
                SequenceOfPairs { cards: s, number_of_pairs: n / 2, starting_value: first.value },
            ),
        );
    }
    None
}

/// The shape that a combination claims holds of the hand-ordered cards `s`,
/// and its comparison key is read from them.
pub open spec fn satisfies_shape(m: ComboModel, s: Seq<Card>) -> bool {
    match m {
        ComboModel::Single { card } => s.len() == 1 && s[0] == card,
        ComboModel::Pair { cards, value } => cards == s && s.len() == 2 && all_ranked(s)
            && same_value(s) && value == s[0].value.0,
        ComboModel::Trio { cards, value } => cards == s && s.len() == 3 && all_ranked(s)
            && same_value(s) && value == s[0].value.0,
        ComboModel::BombOf4 { cards, value } => cards == s && s.len() == 4 && all_ranked(s)
            && same_value(s) && value == s[0].value.0,
        ComboModel::FullHouse { cards, trio_value } => cards == s && all_ranked(s) && is_full_house(
            s,
        ) && trio_value == s[2].value.0,
        ComboModel::Sequence { cards, number_of_cards, starting_value } => cards == s && all_ranked(
            s,
        ) && is_run(s) && number_of_cards == s.len() && starting_value == s[0].value.0,
        ComboModel::SequenceBomb { cards, number_of_cards, starting_value, suit } => cards == s
            && all_ranked(s) && is_run(s) && s.len() == 5 && same_suit(s) && number_of_cards == 5
            && starting_value == s[0].value.0 && suit == s[0].suit,
        ComboModel::SequenceOfPairs { cards, number_of_pairs, starting_value } => cards == s
            && all_ranked(s) && is_pair_run(s) && number_of_pairs * 2 == s.len() && starting_value
            == s[0].value.0,
    }
}

/// Hand-ordered cards `s` have the shape of some combination.
pub open spec fn has_some_shape(s: Seq<Card>) -> bool {
    s.len() == 1 || (all_ranked(s) && ((2 <= s.len() <= 4 && same_value(s)) || is_full_house(s)
        || is_run(s) || is_pair_run(s)))
}

/// A classified combination has the shape it names, read from the cards in
/// hand order; cards of no shape are not classified, and cards of some shape are.
pub proof fn lemma_classification_shape(cards: Seq<Card>)
    ensures
        classification(cards) matches Some(m) ==> satisfies_shape(m, hand_order(cards)),
        !has_some_shape(hand_order(cards)) ==> classification(cards) is None,
        has_some_shape(hand_order(cards)) ==> classification(cards) is Some,
{
    let s = hand_order(cards);
    if is_pair_run(s) && !is_run(s) && !is_full_house(s) {
        assert(s.len() / 2 * 2 == s.len());
    }
}

/// Any rearrangement of the same cards is classified alike.
pub proof fn lemma_classification_order_independent(a: Seq<Card>, b: Seq<Card>)
    requires
        a.to_multiset() == b.to_multiset(),
    ensures
        classification(a) == classification(b),
        hand_order(a) == hand_order(b),
{
    lemma_hand_order(a);
    lemma_hand_order(b);
    lemma_hand_order_unique(hand_order(a), hand_order(b));
}

/// In hand order, deck cards put the four special cards first, in the order
/// MahJong, Dog, Phoenix, Dragon, then the ranked cards by ascending value,
/// cards of equal value in the order Sword, Jade, Pagoda, Star.
pub proof fn lemma_hand_display_order(s: Seq<Card>)
    requires
        is_hand_sorted(s),
        forall|i: int| 0 <= i < s.len() ==> card_wf(#[trigger] s[i]),
    ensures
        forall|i: int, j: int|
            0 <= i < j < s.len() ==> {
                &&& (#[trigger] s[j]).suit.spec_is_special() ==> (#[trigger] s[i]).suit.spec_is_special()
                &&& s[i].suit.spec_is_special() && s[j].suit.spec_is_special() ==> s[i].suit.spec_rank()
                    <= s[j].suit.spec_rank()
                &&& !s[i].suit.spec_is_special() && !s[j].suit.spec_is_special() ==> s[i].value.0
                    <= s[j].value.0
                &&& !s[i].suit.spec_is_special() && s[i].value == s[j].value ==> s[i].suit.spec_rank()
                    <= s[j].suit.spec_rank()
            },
{
    assert forall|i: int, j: int| 0 <= i < j < s.len() implies {
        &&& (#[trigger] s[j]).suit.spec_is_special() ==> (#[trigger] s[i]).suit.spec_is_special()
        &&& s[i].suit.spec_is_special() && s[j].suit.spec_is_special() ==> s[i].suit.spec_rank()
            <= s[j].suit.spec_rank()
        &&& !s[i].suit.spec_is_special() && !s[j].suit.spec_is_special() ==> s[i].value.0
            <= s[j].value.0
        &&& !s[i].suit.spec_is_special() && s[i].value == s[j].value ==> s[i].suit.spec_rank()
            <= s[j].suit.spec_rank()
    } by {
        assert(card_wf(s[i]) && card_wf(s[j]));
        assert(card_key(s[i]) <= card_key(s[j]));
        assert(s[i].suit.spec_rank() < 8 && s[j].suit.spec_rank() < 8);
    }
}

} // verus!
