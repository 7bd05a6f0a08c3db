use vstd::prelude::*;
use rand::seq::SliceRandom;
use vstd::multiset::Multiset;

verus! {

/// A card suit. `Blank` marks an empty trick slot and never appears in a deck.
#[derive(Clone, Copy, Debug, PartialEq, Eq, Structural)]
pub enum Suit {
    Blank,
    Club,
    Diamond,
    Heart,
    Spade,
}

/// A card rank, ordered `Two` < ... < `Ace`. `Blank` marks an empty trick slot.
#[derive(Clone, Copy, Debug, PartialEq, Eq, Structural)]
pub enum Rank {
    Blank,
    Two,
    Three,
    Four,
    Five,
    Six,
    Seven,
    Eight,
    Nine,
    Ten,
    Jack,
    Queen,
    King,
    Ace,
}

#[derive(Clone, Copy, Debug, PartialEq, Eq, Structural)]
pub struct Card {
    pub suit: Suit,
    pub rank: Rank,
}

/// Numeric value of a rank: 2 through 14 for `Two` through `Ace`, 0 for `Blank`.
pub open spec fn rank_value(r: Rank) -> int {
    match r {
        Rank::Blank => 0,
        Rank::Two => 2,
        Rank::Three => 3,
        Rank::Four => 4,
        Rank::Five => 5,
        Rank::Six => 6,
        Rank::Seven => 7,
        Rank::Eight => 8,
        Rank::Nine => 9,
        Rank::Ten => 10,
        Rank::Jack => 11,
        Rank::Queen => 12,
        Rank::King => 13,
        Rank::Ace => 14,
    }
}

pub fn rank_number(r: Rank) -> (n: u8)
    ensures
        n as int == rank_value(r),
{
    match r {
        Rank::Blank => 0,
        Rank::Two => 2,
        Rank::Three => 3,
        Rank::Four => 4,
        Rank::Five => 5,
        Rank::Six => 6,
        Rank::Seven => 7,
        Rank::Eight => 8,
        Rank::Nine => 9,
        Rank::Ten => 10,
        Rank::Jack => 11,
        Rank::Queen => 12,
        Rank::King => 13,
        Rank::Ace => 14,
    }
}

/// `a` takes the trick away from `b`: a higher card of the same suit, or a spade over a non-spade.
pub open spec fn beats(a: Card, b: Card) -> bool {
    (a.suit == b.suit && rank_value(a.rank) > rank_value(b.rank))
        || (a.suit == Suit::Spade && b.suit != Suit::Spade)
}

/// The seat that wins a trick led by seat `lead`: no card of the trick beats the
/// winner's, and the winner followed the leading suit or trumped with a spade.
pub open spec fn is_trick_winner(lead: int, trick: Seq<Card>, w: int) -> bool {
    &&& 0 <= w < 4
    &&& forall|j: int| 0 <= j < 4 ==> !beats(#[trigger] trick[j], trick[w])
    &&& (trick[w].suit == trick[lead].suit || trick[w].suit == Suit::Spade)
}

proof fn lemma_beats_transitive(x: Card, new: Card, cur: Card)
    requires
        beats(new, cur),
        !beats(x, cur),
    ensures
        !beats(x, new),
{
}

/// Given the four cards of a trick indexed by seat and the seat that led,
/// returns the seat that wins it.
pub fn get_trick_winner(index: usize, others: &[Card; 4]) -> (w: usize)
    requires
        index < 4,
    ensures
        is_trick_winner(index as int, others@, w as int),
{
    let mut winning_index: usize = index;
    let mut max_card: Card = others[index];
    let mut i: usize = 0;
    while i < 4
        invariant
            0 <= i <= 4,
            index < 4,
            winning_index < 4,
            max_card == others@[winning_index as int],
            max_card.suit == others@[index as int].suit || max_card.suit == Suit::Spade,
            forall|j: int| 0 <= j < i ==> !beats(#[trigger] others@[j], max_card),
        decreases 4 - i,
    {
        let other = others[i];
        let prev = max_card;
        if other.suit == max_card.suit {
            if rank_number(other.rank) > rank_number(max_card.rank) {
                max_card = other;
                winning_index = i;
            }
        } else if other.suit == Suit::Spade {
            max_card = other;
            winning_index = i;
        }
        proof {
            if max_card != prev {
                assert forall|j: int| 0 <= j < i implies !beats(#[trigger] others@[j], max_card) by {
                    lemma_beats_transitive(others@[j], max_card, prev);
                }
            }
        }
        i = i + 1;
    }
    winning_index
}


/// The suit in position `i` (0 to 3) of Club, Diamond, Heart, Spade.
pub open spec fn suit_at(i: int) -> Suit {
    if i == 0 {
        Suit::Club
    } else if i == 1 {
        Suit::Diamond
    } else if i == 2 {
        Suit::Heart
    } else {
        Suit::Spade
    }
}

/// The rank in position `j` (0 to 12) of Two through Ace.
pub open spec fn rank_at(j: int) -> Rank {
    if j == 0 { Rank::Two }
    else if j == 1 { Rank::Three }
    else if j == 2 { Rank::Four }
    else if j == 3 { Rank::Five }
    else if j == 4 { Rank::Six }
    else if j == 5 { Rank::Seven }
    else if j == 6 { Rank::Eight }
    else if j == 7 { Rank::Nine }
    else if j == 8 { Rank::Ten }
    else if j == 9 { Rank::Jack }
    else if j == 10 { Rank::Queen }
    else if j == 11 { Rank::King }
    else { Rank::Ace }
}

/// The 52-card deck in suit-major order, each suit from Two up to Ace.
pub open spec fn standard_deck() -> Seq<Card> {
    Seq::new(52, |k: int| Card { suit: suit_at(k / 13), rank: rank_at(k % 13) })
}

fn suit_from_position(i: usize) -> (s: Suit)
    requires
        i < 4,
    ensures
        s == suit_at(i as int),
{
    if i == 0 {
        Suit::Club
    } else if i == 1 {
        Suit::Diamond
    } else if i == 2 {
        Suit::Heart
    } else {
        Suit::Spade
    }
}

fn rank_from_position(j: usize) -> (r: Rank)
    requires
        j < 13,
    ensures
        r == rank_at(j as int),
{
    if j == 0 { Rank::Two }
    else if j == 1 { Rank::Three }
    else if j == 2 { Rank::Four }
    else if j == 3 { Rank::Five }
    else if j == 4 { Rank::Six }
    else if j == 5 { Rank::Seven }
    else if j == 6 { Rank::Eight }
    else if j == 7 { Rank::Nine }
    else if j == 8 { Rank::Ten }
    else if j == 9 { Rank::Jack }
    else if j == 10 { Rank::Queen }
    else if j == 11 { Rank::King }
    else { Rank::Ace }
}

/// Shuffles the cards in place; the result is a permutation of the input.
/// Relies on rand's `SliceRandom::shuffle` (Fisher-Yates by swaps) with the thread-local generator.
#[verifier::external_body]
pub fn shuffle(cards: &mut Vec<Card>)
    ensures
        final(cards)@.to_multiset() == old(cards)@.to_multiset(),
{
    let mut rng = rand::thread_rng();
    cards.shuffle(&mut rng);
}

/// Returns the 52 cards of a standard deck in a random order.
pub fn new_deck() -> (deck: Vec<Card>)
    ensures
        deck@.to_multiset() == standard_deck().to_multiset(),
        deck@.len() == 52,
{
    let mut cards: Vec<Card> = Vec::new();
    let mut i: usize = 0;
    while i < 4
        invariant
            0 <= i <= 4,
            cards@.len() == 13 * i,
            forall|k: int| 0 <= k < cards@.len() ==> #[trigger] cards@[k] == standard_deck()[k],
        decreases 4 - i,
    {
        let suit = suit_from_position(i);
        let mut j: usize = 0;
        while j < 13
            invariant
                0 <= i < 4,
                0 <= j <= 13,
                suit == suit_at(i as int),
                cards@.len() == 13 * i + j,
                forall|k: int| 0 <= k < cards@.len() ==> #[trigger] cards@[k] == standard_deck()[k],
            decreases 13 - j,
        {
            let rank = rank_from_position(j);
            proof {
                let k = 13 * i + j;
                assert(k / 13 == i as int && k % 13 == j as int) by (nonlinear_arith)
                    requires k == 13 * i + j, j < 13;
            }
            cards.push(Card { suit, rank });
            j = j + 1;
        }
        i = i + 1;
    }
    assert(cards@ =~= standard_deck());
    let ghost before = cards@;
    shuffle(&mut cards);
    proof {
        assert(cards@.len() == before.len()) by {
            before.to_multiset_ensures();
            cards@.to_multiset_ensures();
        }
    }
    cards
}

/// The empty trick: four blank cards.
pub open spec fn blank_card() -> Card {
    Card { suit: Suit::Blank, rank: Rank::Blank }
}

/// Returns an array of four blank cards.
pub fn new_pot() -> (pot: [Card; 4])
    ensures
        forall|i: int| 0 <= i < 4 ==> #[trigger] pot@[i] == blank_card(),
{
    [
        Card { suit: Suit::Blank, rank: Rank::Blank },
        Card { suit: Suit::Blank, rank: Rank::Blank },
        Card { suit: Suit::Blank, rank: Rank::Blank },
        Card { suit: Suit::Blank, rank: Rank::Blank },
    ]
}

/// The hands dealt round-robin from the top (end) of the 52 cards `s`:
/// card `j` of hand `i` is the `(4 * j + i)`-th card taken from the top.
pub open spec fn dealt_from(s: Seq<Card>, hands: Seq<Vec<Card>>) -> bool {
    &&& s.len() == 52
    &&& hands.len() == 4
    &&& forall|i: int| 0 <= i < 4 ==> (#[trigger] hands[i])@.len() == 13
    &&& forall|i: int, j: int| 0 <= i < 4 && 0 <= j < 13 ==>
        (#[trigger] hands[i]@[j]) == s[51 - (4 * j + i)]
}

/// All cards held in four hands.
pub open spec fn hands_multiset(h: Seq<Vec<Card>>) -> Multiset<Card> {
    h[0]@.to_multiset().add(h[1]@.to_multiset()).add(h[2]@.to_multiset()).add(h[3]@.to_multiset())
}

/// Moves the top card of `from` onto the end of `to`.
fn pop_into(from: &mut Vec<Card>, to: &mut Vec<Card>) -> (c: Card)
    requires
        old(from)@.len() > 0,
    ensures
        c == old(from)@.last(),
        final(from)@ == old(from)@.drop_last(),
        final(to)@ == old(to)@.push(c),
        final(from)@.to_multiset().add(final(to)@.to_multiset())
            == old(from)@.to_multiset().add(old(to)@.to_multiset()),
{
    let c = from.pop().unwrap();
    to.push(c);
    proof {
        let f = old(from)@;
        f.to_multiset_ensures();
        old(to)@.to_multiset_ensures();
        assert(f.drop_last() =~= f.remove(f.len() - 1));
        assert(final(from)@.to_multiset().add(final(to)@.to_multiset())
            =~= old(from)@.to_multiset().add(old(to)@.to_multiset()));
    }
    c
}

pub proof fn lemma_empty_multiset(s: Seq<Card>)
    requires
        s.len() == 0,
    ensures
        s.to_multiset() =~= Multiset::empty(),
{
    s.to_multiset_ensures();
    assert forall|a: Card| s.to_multiset().count(a) == Multiset::<Card>::empty().count(a) by {
        assert(!s.contains(a));
    }
}

/// Sort key of a card: suit first, then rank.
pub open spec fn card_key(c: Card) -> int {
    suit_value(c.suit) * 15 + rank_value(c.rank)
}

pub open spec fn suit_value(s: Suit) -> int {
    match s {
        Suit::Blank => 0,
        Suit::Club => 1,
        Suit::Diamond => 2,
        Suit::Heart => 3,
        Suit::Spade => 4,
    }
}

pub open spec fn sorted_by_key(s: Seq<Card>) -> bool {
    forall|i: int, j: int| 0 <= i < j < s.len() ==> card_key(s[i]) <= card_key(s[j])
}

fn key_of(c: Card) -> (k: u8)
    ensures
        k as int == card_key(c),
{
    let sv: u8 = match c.suit {
        Suit::Blank => 0,
        Suit::Club => 1,
        Suit::Diamond => 2,
        Suit::Heart => 3,
        Suit::Spade => 4,
    };
    sv * 15 + rank_number(c.rank)
}

/// Sorts a hand by suit, then rank, ascending.
pub fn sort_hand(hand: &mut Vec<Card>)
    ensures
        final(hand)@.to_multiset() == old(hand)@.to_multiset(),
        sorted_by_key(final(hand)@),
{
    let mut out: Vec<Card> = Vec::new();
    let mut i: usize = 0;
    proof {
        lemma_empty_multiset(out@);
        lemma_empty_multiset(hand@.take(0));
    }
    while i < hand.len()
        invariant
            0 <= i <= hand@.len(),
            hand@ == old(hand)@,
            out@.to_multiset() == hand@.take(i as int).to_multiset(),
            sorted_by_key(out@),
        decreases hand@.len() - i,
    {
        let c = hand[i];
        let k = key_of(c);
        let mut p: usize = 0;
        while p < out.len() && key_of(out[p]) <= k
            invariant
                0 <= p <= out@.len(),
                k as int == card_key(c),
                forall|q: int| 0 <= q < p ==> card_key(out@[q]) <= k,
            decreases out@.len() - p,
        {
            p = p + 1;
        }
        let ghost before = out@;
        out.insert(p, c);
        proof {
            vstd::seq_lib::to_multiset_insert(before, p as int, c);
            hand@.to_multiset_ensures();
            assert(hand@.take(i + 1) =~= hand@.take(i as int).push(c));
            hand@.take(i as int).to_multiset_ensures();
            assert forall|a: int, b: int| 0 <= a < b < out@.len() implies card_key(out@[a]) <= card_key(out@[b]) by {
                if a < p && b > p {
                    assert(out@[b] == before[b - 1]);
                } else if a == p {
                    assert(out@[b] == before[b - 1]);
                    if p < before.len() {
                        assert(card_key(before[p as int]) > k);
                    }
                } else if b == p {
                } else if a > p {
                    assert(out@[a] == before[a - 1]);
                    assert(out@[b] == before[b - 1]);
                }
            }
        }
        i = i + 1;
    }
    assert(hand@.take(hand@.len() as int) =~= hand@);
    *hand = out;
}

/// Shuffles a full deck and deals it into four hands of thirteen, leaving `cards` empty.
pub fn deal_four_players(cards: &mut Vec<Card>) -> (hands: Vec<Vec<Card>>)
    requires
        old(cards)@.len() == 52,
    ensures
        final(cards)@.len() == 0,
        exists|s: Seq<Card>| s.to_multiset() == old(cards)@.to_multiset() && dealt_from(s, hands@),
        hands@.len() == 4,
        forall|i: int| 0 <= i < 4 ==> (#[trigger] hands@[i])@.len() == 13,
        hands_multiset(hands@) == old(cards)@.to_multiset(),
{
    let ghost start = cards@;
    shuffle(cards);
    proof {
        start.to_multiset_ensures();
        cards@.to_multiset_ensures();
    }
    let ghost s = cards@;
    let mut h0: Vec<Card> = Vec::new();
    let mut h1: Vec<Card> = Vec::new();
    let mut h2: Vec<Card> = Vec::new();
    let mut h3: Vec<Card> = Vec::new();
    let mut j: usize = 0;
    proof {
        lemma_empty_multiset(h0@);
        assert(cards@.to_multiset().add(h0@.to_multiset()).add(h0@.to_multiset()).add(h0@.to_multiset()).add(
            h0@.to_multiset()) =~= s.to_multiset());
    }
    while j < 13
        invariant
            0 <= j <= 13,
            s.len() == 52,
            cards@ == s.take(52 - 4 * j),
            h0@.len() == j && h1@.len() == j && h2@.len() == j && h3@.len() == j,
            forall|t: int| 0 <= t < j ==> #[trigger] h0@[t] == s[51 - 4 * t],
            forall|t: int| 0 <= t < j ==> #[trigger] h1@[t] == s[51 - (4 * t + 1)],
            forall|t: int| 0 <= t < j ==> #[trigger] h2@[t] == s[51 - (4 * t + 2)],
            forall|t: int| 0 <= t < j ==> #[trigger] h3@[t] == s[51 - (4 * t + 3)],
            cards@.to_multiset().add(h0@.to_multiset()).add(h1@.to_multiset()).add(h2@.to_multiset()).add(
                h3@.to_multiset()) == s.to_multiset(),
        decreases 13 - j,
    {
        let ghost m = cards@.to_multiset().add(h0@.to_multiset()).add(h1@.to_multiset()).add(
            h2@.to_multiset()).add(h3@.to_multiset());
        let ghost k0 = cards@;
        let ghost g0 = h0@;
        let ghost g1 = h1@;
        let ghost g2 = h2@;
        let ghost g3 = h3@;
        let c0 = pop_into(cards, &mut h0);
        let ghost k1 = cards@;
        let c1 = pop_into(cards, &mut h1);
        let ghost k2 = cards@;
        let c2 = pop_into(cards, &mut h2);
        let ghost k3 = cards@;
        let c3 = pop_into(cards, &mut h3);
        proof {
            broadcast use vstd::multiset::group_multiset_axioms;
            assert forall|a: Card| cards@.to_multiset().add(h0@.to_multiset()).add(h1@.to_multiset()).add(
                h2@.to_multiset()).add(h3@.to_multiset()).count(a) == m.count(a) by {
                assert(k1.to_multiset().add(h0@.to_multiset()).count(a) == k0.to_multiset().add(g0.to_multiset()).count(a));
                assert(k2.to_multiset().add(h1@.to_multiset()).count(a) == k1.to_multiset().add(g1.to_multiset()).count(a));
                assert(k3.to_multiset().add(h2@.to_multiset()).count(a) == k2.to_multiset().add(g2.to_multiset()).count(a));
                assert(cards@.to_multiset().add(h3@.to_multiset()).count(a) == k3.to_multiset().add(g3.to_multiset()).count(a));
            }
            assert(cards@.to_multiset().add(h0@.to_multiset()).add(h1@.to_multiset()).add(
                h2@.to_multiset()).add(h3@.to_multiset()) =~= m);
        }
        assert(cards@ =~= s.take(52 - 4 * (j + 1)));
        j = j + 1;
    }
    proof {
        cards@.to_multiset_ensures();
        assert(cards@.to_multiset() =~= Multiset::empty());
    }
    let hands = vec![h0, h1, h2, h3];
    assert(dealt_from(s, hands@));
    assert(hands_multiset(hands@) =~= old(cards)@.to_multiset());
    hands
}

} // verus!
