use vstd::prelude::*;
use rand::Rng;
use crate::cards::{Card, Suit};
use crate::outcomes::{State, TransitionError};

verus! {

pub open spec fn holds_suit(hand: Seq<Card>, s: Suit) -> bool {
    exists|i: int| 0 <= i < hand.len() && (#[trigger] hand[i]).suit == s
}

/// A card may be played from `hand` when it is the trick's first card, when it follows the
/// leading suit, or when the hand holds no card of the leading suit.
pub open spec fn is_legal(hand: Seq<Card>, c: Card, leading: Suit, first: bool) -> bool {
    hand.contains(c) && (first || c.suit == leading || !holds_suit(hand, leading))
}

/// The failure of playing `c` from `hand`, or `None` when the play is legal.
pub open spec fn card_error(hand: Seq<Card>, c: Card, leading: Suit, first: bool) -> Option<TransitionError> {
    if !hand.contains(c) {
        Some(TransitionError::CardNotInHand)
    } else if !is_legal(hand, c, leading, first) {
        Some(TransitionError::CardIncorrectSuit)
    } else {
        None
    }
}

fn has_suit(hand: &Vec<Card>, s: Suit) -> (b: bool)
    ensures
        b == holds_suit(hand@, s),
{
    let mut i: usize = 0;
    while i < hand.len()
        invariant
            0 <= i <= hand@.len(),
            forall|j: int| 0 <= j < i ==> (#[trigger] hand@[j]).suit != s,
        decreases hand@.len() - i,
    {
        if hand[i].suit == s {
            return true;
        }
        i = i + 1;
    }
    false
}

/// Position of the first copy of `c` in `hand`, if any.
pub fn find_card(hand: &Vec<Card>, c: Card) -> (r: Option<usize>)
    ensures
        r is None <==> !hand@.contains(c),
        r matches Some(i) ==> i < hand@.len() && hand@[i as int] == c
            && forall|j: int| 0 <= j < i ==> hand@[j] != c,
{
    let mut i: usize = 0;
    while i < hand.len()
        invariant
            0 <= i <= hand@.len(),
            forall|j: int| 0 <= j < i ==> hand@[j] != c,
        decreases hand@.len() - i,
    {
        if hand[i] == c {
            return Some(i);
        }
        i = i + 1;
    }
    None
}

/// Checks a card play: `CardNotInHand` when the seat lacks the card, `CardIncorrectSuit` when
/// it could follow the leading suit and does not.
pub fn check_card(hand: &Vec<Card>, c: Card, leading: Suit, first: bool) -> (r: Option<TransitionError>)
    ensures
        r == card_error(hand@, c, leading, first),
{
    if find_card(hand, c).is_none() {
        return Some(TransitionError::CardNotInHand);
    }
    if first || c.suit == leading {
        return None;
    }
    if has_suit(hand, leading) {
        Some(TransitionError::CardIncorrectSuit)
    } else {
        None
    }
}

/// The cards of `hand` that may be played now, in hand order.
pub fn get_legal_cards(hand: &Vec<Card>, leading: Suit, first: bool) -> (r: Vec<Card>)
    ensures
        forall|c: Card| r@.contains(c) <==> is_legal(hand@, c, leading, first),
{
    let follow = !first && has_suit(hand, leading);
    let mut r: Vec<Card> = Vec::new();
    let mut i: usize = 0;
    while i < hand.len()
        invariant
            0 <= i <= hand@.len(),
            follow == (!first && holds_suit(hand@, leading)),
            forall|c: Card| r@.contains(c) <==> (exists|j: int| 0 <= j < i && hand@[j] == c
                && (!follow || c.suit == leading)),
        decreases hand@.len() - i,
    {
        let c = hand[i];
        let ghost before = r@;
        if !follow || c.suit == leading {
            r.push(c);
        }
        assert forall|d: Card| r@.contains(d) <==> (exists|j: int| 0 <= j < i + 1 && hand@[j] == d
            && (!follow || d.suit == leading)) by {
            if r@.contains(d) {
                let k = choose|k: int| 0 <= k < r@.len() && r@[k] == d;
                if k < before.len() {
                    assert(before.contains(d));
                } else {
                    assert(hand@[i as int] == d);
                }
            }
            if exists|j: int| 0 <= j < i + 1 && hand@[j] == d && (!follow || d.suit == leading) {
                let j = choose|j: int| 0 <= j < i + 1 && hand@[j] == d && (!follow || d.suit == leading);
                if j < i {
                    assert(before.contains(d));
                    let k = choose|k: int| 0 <= k < before.len() && before[k] == d;
                    assert(r@[k] == d);
                } else {
                    assert(r@[r@.len() - 1] == d);
                }
            }
        }
        i = i + 1;
    }
    r
}

/// Takes the first copy of `c` out of `hand`.
pub fn remove_card(hand: &mut Vec<Card>, c: Card) -> (removed: bool)
    ensures
        removed == old(hand)@.contains(c),
        !removed ==> final(hand)@ == old(hand)@,
        removed ==> exists|i: int| 0 <= i < old(hand)@.len() && old(hand)@[i] == c
            && final(hand)@ == old(hand)@.remove(i),
{
    match find_card(hand, c) {
        Some(i) => {
            hand.remove(i);
            true
        },
        None => false,
    }
}

/// The phase after a successful bid in `Betting(k)`: the next bidder, or trick play after the fourth bid.
pub fn phase_after_bet(k: usize) -> (s: State)
    requires
        k < 4,
    ensures
        k < 3 ==> s == State::Betting((k + 1) as usize),
        k == 3 ==> s == State::Trick(0),
{
    if k < 3 {
        State::Betting(k + 1)
    } else {
        State::Trick(0)
    }
}


/// A uniformly drawn index below `n`.
/// Relies on rand's `Rng::gen_range` with the thread-local generator, which panics on an empty range.
#[verifier::external_body]
fn random_index(n: usize) -> (r: usize)
    requires
        n > 0,
    ensures
        r < n,
{
    rand::thread_rng().gen_range(0..n)
}

/// The card played for a seat whose clock ran out: one drawn at random from the legal set,
/// or `None` when nothing is legal.
pub fn forced_card(hand: &Vec<Card>, leading: Suit, first: bool) -> (r: Option<Card>)
    ensures
        r matches Some(c) ==> is_legal(hand@, c, leading, first),
        r is None ==> forall|c: Card| !is_legal(hand@, c, leading, first),
{
    let legal = get_legal_cards(hand, leading, first);
    if legal.len() == 0 {
        assert forall|c: Card| !is_legal(hand@, c, leading, first) by {
            if is_legal(hand@, c, leading, first) {
                assert(legal@.contains(c));
            }
        }
        return None;
    }
    let i = random_index(legal.len());
    let c = legal[i];
    assert(legal@.contains(c));
    Some(c)
}

/// A legal play that is not the trick's first card follows the leading suit whenever the
/// hand held a card of that suit.
pub proof fn legal_play_follows_suit(hand: Seq<Card>, c: Card, leading: Suit)
    requires
        card_error(hand, c, leading, false) is None,
        holds_suit(hand, leading),
    ensures
        c.suit == leading,
{
}

} // verus!
