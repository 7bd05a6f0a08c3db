use vstd::prelude::*;
use vstd::multiset::Multiset;
use crate::cards::{
    deal_four_players, hands_multiset, is_trick_winner, lemma_empty_multiset, new_deck, new_pot,
    sort_hand, sorted_by_key, standard_deck, suit_at, rank_at, Card, Suit,
};
use crate::outcomes::{phase_error, GameTransition, GetError, State, TransitionError, TransitionSuccess};
use crate::rules::{card_error, check_card, get_legal_cards, is_legal, remove_card};
use crate::scoring::{game_over, valid_bet, Scoring, MAX_ROUNDS};

verus! {

/// One table: four seats (A+C against B+D), their hands, the deck remainder, the cards of the
/// trick in progress, the phase, the acting seat and the scoring record. Player and table
/// identifiers are 128-bit values.
#[derive(Debug)]
pub struct Game {
    pub id: u128,
    pub player_ids: [u128; 4],
    pub state: State,
    pub scoring: Scoring,
    pub current_player_index: usize,
    /// The seat that led the trick in progress.
    pub leader: usize,
    /// Cards not in any hand: the undealt remainder and the cards played this round.
    pub deck: Vec<Card>,
    pub hand_a: Vec<Card>,
    pub hand_b: Vec<Card>,
    pub hand_c: Vec<Card>,
    pub hand_d: Vec<Card>,
    /// The trick in progress, indexed by seat.
    pub trick_cards: [Card; 4],
    pub leading_suit: Suit,
    /// Optional display name of each seat.
    pub player_names: [Option<String>; 4],
}

/// A well-formed table, and so every table reachable through `new` and `play`, holds each of
/// the 52 cards of the deck exactly once across hands, deck remainder and played cards.
pub proof fn table_holds_each_card_once(g: Game)
    requires
        g.wf(),
    ensures
        g.all_cards() == standard_deck().to_multiset(),
        g.all_cards().len() == 52,
        forall|c: Card| g.all_cards().count(c) <= 1,
{
    let d = standard_deck();
    assert forall|i: int, j: int| 0 <= i < d.len() && 0 <= j < d.len() && i != j implies d[i] != d[j] by {
        if d[i] == d[j] {
            assert(suit_at(i / 13) == suit_at(j / 13));
            assert(i / 13 == j / 13);
            assert(rank_at(i % 13) == rank_at(j % 13));
            assert(i % 13 == j % 13);
        }
    }
    d.lemma_multiset_has_no_duplicates();
    d.to_multiset_ensures();
}

/// The first seat (0 to 3) held by player `p`, or 4 when `p` holds none.
pub open spec fn first_seat_of(ids: Seq<u128>, p: u128) -> int {
    if ids[0] == p {
        0
    } else if ids[1] == p {
        1
    } else if ids[2] == p {
        2
    } else if ids[3] == p {
        3
    } else {
        4
    }
}

/// A bid of `n` by the acting seat in `Betting(k)`: recorded in this round's row of bids; the
/// next seat bids, or after the fourth bid trick play starts with seat A leading.
pub open spec fn bet_outcome(old: Game, n: i32, new: Game, r: Result<TransitionSuccess, TransitionError>) -> bool {
    match old.state {
        State::Betting(k) => {
            &&& new.scoring.bets_placed@[old.scoring.round as int]@
                == old.scoring.bets_placed@[old.scoring.round as int]@.update(k as int, n)
            &&& new.scoring.round == old.scoring.round
            &&& new.scoring.team_a == old.scoring.team_a
            &&& new.scoring.team_b == old.scoring.team_b
            &&& forall|i: int| 0 <= i < 4 ==> new.hand(i) == old.hand(i)
            &&& if k < 3 {
                &&& r == Ok::<TransitionSuccess, TransitionError>(TransitionSuccess::Bet)
                &&& new.state == State::Betting((k + 1) as usize)
                &&& new.current_player_index == k + 1
            } else {
                &&& r == Ok::<TransitionSuccess, TransitionError>(TransitionSuccess::BetComplete)
                &&& new.state == State::Trick(0)
                &&& new.current_player_index == 0
                &&& new.leader == 0
            }
        },
        _ => false,
    }
}

/// Playing `c` for the acting seat in `Trick(k)`: refused without change when illegal; otherwise
/// the card leaves the hand for the trick, the next seat acts, and the fourth card resolves the
/// trick: its winner leads the next one, or after the thirteenth trick the round is settled and
/// the table either completes or deals a new round.
pub open spec fn card_trick_outcome(old: Game, k: usize, c: Card, new: Game, r: Result<TransitionSuccess, TransitionError>) -> bool {
    let cur = old.current_player_index as int;
    let first = k == 0;
    match card_error(old.hand(cur), c, old.leading_suit, first) {
        Some(e) => r == Err::<TransitionSuccess, TransitionError>(e) && new == old,
        None => {
            let played = old.trick_cards@.update(cur, c);
            &&& is_legal(old.hand(cur), c, old.leading_suit, first)
            &&& k < 3 ==> {
                &&& r == Ok::<TransitionSuccess, TransitionError>(TransitionSuccess::PlayCard)
                &&& new.state == State::Trick((k + 1) as usize)
                &&& new.current_player_index == (cur + 1) % 4
                &&& new.trick_cards@ == played
                &&& new.leading_suit == (if first { c.suit } else { old.leading_suit })
                &&& exists|j: int| 0 <= j < old.hand(cur).len() && old.hand(cur)[j] == c
                    && new.hand(cur) == old.hand(cur).remove(j)
                &&& forall|o: int| 0 <= o < 4 && o != cur ==> new.hand(o) == old.hand(o)
            }
            &&& k == 3 ==> {
                &&& exists|w: int| is_trick_winner(old.leader as int, played, w)
                    && (new.state == State::Trick(0) ==> new.current_player_index == w && new.leader == w)
                &&& old.scoring.trick < 12 ==> new.state == State::Trick(0)
                    && r == Ok::<TransitionSuccess, TransitionError>(TransitionSuccess::Trick)
                &&& old.scoring.trick == 12 ==> {
                    &&& new.scoring.is_over == game_over(
                        new.scoring.team_a.cumulative_points as int,
                        new.scoring.team_b.cumulative_points as int,
                        old.scoring.config.max_points as int)
                    &&& new.scoring.is_over ==> new.state == State::Completed
                        && r == Ok::<TransitionSuccess, TransitionError>(TransitionSuccess::GameOver)
                    &&& !new.scoring.is_over ==> new.state == State::Betting(0) && new.current_player_index == 0
                        && new.freshly_dealt() && r == Ok::<TransitionSuccess, TransitionError>(TransitionSuccess::Trick)
                    &&& new.scoring.round == old.scoring.round + 1
                }
            }
        },
    }
}

impl Game {
    /// The hand of seat `i` (0 to 3 for A to D).
    pub open spec fn hand(&self, i: int) -> Seq<Card> {
        if i == 0 {
            self.hand_a@
        } else if i == 1 {
            self.hand_b@
        } else if i == 2 {
            self.hand_c@
        } else {
            self.hand_d@
        }
    }

    /// Every card the table holds: deck remainder, played cards and the four hands.
    pub open spec fn all_cards(&self) -> Multiset<Card> {
        self.deck@.to_multiset().add(self.hand_a@.to_multiset()).add(self.hand_b@.to_multiset()).add(
            self.hand_c@.to_multiset()).add(self.hand_d@.to_multiset())
    }

    /// The table holds exactly the 52 cards of a deck; the acting seat follows from the phase;
    /// in a trick after its first card the leading suit is the suit the leader played.
    pub open spec fn wf(&self) -> bool {
        &&& self.all_cards() == standard_deck().to_multiset()
        &&& self.scoring.wf()
        &&& self.current_player_index < 4
        &&& self.leader < 4
        &&& !self.state.is_terminal_spec() ==> !self.scoring.is_over
        &&& match self.state {
            State::NotStarted => self.scoring.in_betting_stage && self.current_player_index == 0,
            State::Betting(k) => k < 4 && self.scoring.in_betting_stage && self.current_player_index == k,
            State::Trick(k) => {
                &&& k < 4
                &&& !self.scoring.in_betting_stage
                &&& self.current_player_index == (self.leader + k) % 4
                &&& k >= 1 ==> self.trick_cards@[self.leader as int].suit == self.leading_suit
            },
            _ => true,
        }
    }

    /// Hands as dealt at the start of a round: thirteen cards each, sorted by suit then rank.
    pub open spec fn freshly_dealt(&self) -> bool {
        forall|i: int| 0 <= i < 4 ==> (#[trigger] self.hand(i)).len() == 13 && sorted_by_key(self.hand(i))
    }

    pub fn new(id: u128, player_ids: [u128; 4], max_points: i32) -> (g: Game)
        ensures
            g.wf(),
            g.id == id,
            g.player_ids == player_ids,
            g.state == State::NotStarted,
            g.scoring.config.max_points == max_points,
            g.scoring.team_a.cumulative_points == 0 && g.scoring.team_b.cumulative_points == 0,
    {
        let g = Game {
            id,
            player_ids,
            state: State::NotStarted,
            scoring: Scoring::new(max_points),
            current_player_index: 0,
            leader: 0,
            deck: new_deck(),
            hand_a: Vec::new(),
            hand_b: Vec::new(),
            hand_c: Vec::new(),
            hand_d: Vec::new(),
            trick_cards: new_pot(),
            leading_suit: Suit::Blank,
            player_names: [None, None, None, None],
        };
        proof {
            lemma_empty_multiset(g.hand_a@);
            assert(g.all_cards() =~= standard_deck().to_multiset());
        }
        g
    }


    /// The checked play of `c` by seat `i`, with the failure it meets.
    fn check_play(&self, i: usize, c: Card, first: bool) -> (r: Option<TransitionError>)
        requires
            i < 4,
        ensures
            r == card_error(self.hand(i as int), c, self.leading_suit, first),
    {
        if i == 0 {
            check_card(&self.hand_a, c, self.leading_suit, first)
        } else if i == 1 {
            check_card(&self.hand_b, c, self.leading_suit, first)
        } else if i == 2 {
            check_card(&self.hand_c, c, self.leading_suit, first)
        } else {
            check_card(&self.hand_d, c, self.leading_suit, first)
        }
    }

    /// Moves `c` from seat `i`'s hand onto the deck of played cards.
    fn move_to_deck(&mut self, i: usize, c: Card)
        requires
            i < 4,
            old(self).hand(i as int).contains(c),
        ensures
            exists|j: int| 0 <= j < old(self).hand(i as int).len() && old(self).hand(i as int)[j] == c
                && final(self).hand(i as int) == old(self).hand(i as int).remove(j),
            forall|o: int| 0 <= o < 4 && o != i ==> final(self).hand(o) == old(self).hand(o),
            final(self).deck@ == old(self).deck@.push(c),
            final(self).all_cards() == old(self).all_cards(),
            final(self).id == old(self).id,
            final(self).player_ids == old(self).player_ids,
            final(self).state == old(self).state,
            final(self).scoring == old(self).scoring,
            final(self).current_player_index == old(self).current_player_index,
            final(self).leader == old(self).leader,
            final(self).trick_cards == old(self).trick_cards,
            final(self).leading_suit == old(self).leading_suit,
    {
        if i == 0 {
            remove_card(&mut self.hand_a, c);
        } else if i == 1 {
            remove_card(&mut self.hand_b, c);
        } else if i == 2 {
            remove_card(&mut self.hand_c, c);
        } else {
            remove_card(&mut self.hand_d, c);
        }
        self.deck.push(c);
        proof {
            broadcast use vstd::multiset::group_multiset_axioms;
            let h = old(self).hand(i as int);
            let j = choose|j: int| 0 <= j < h.len() && h[j] == c && self.hand(i as int) == h.remove(j);
            h.to_multiset_ensures();
            old(self).deck@.to_multiset_ensures();
            assert(self.hand(i as int).to_multiset() == h.to_multiset().remove(c));
            assert(h.to_multiset().count(c) > 0);
            assert(self.all_cards() =~= old(self).all_cards());
        }
    }



    pub fn get_id(&self) -> (r: u128)
        ensures
            r == self.id,
    {
        self.id
    }

    pub fn get_state(&self) -> (r: State)
        ensures
            r == self.state,
    {
        self.state
    }

    pub fn get_team_a_score(&self) -> (r: Result<i32, GetError>)
        ensures
            self.state == State::NotStarted ==> r == Err::<i32, GetError>(GetError::GameNotStarted),
            self.state != State::NotStarted ==> r == Ok::<i32, GetError>(self.scoring.team_a.cumulative_points),
    {
        match self.state {
            State::NotStarted => Err(GetError::GameNotStarted),
            _ => Ok(self.scoring.team_a.cumulative_points),
        }
    }

    pub fn get_team_b_score(&self) -> (r: Result<i32, GetError>)
        ensures
            self.state == State::NotStarted ==> r == Err::<i32, GetError>(GetError::GameNotStarted),
            self.state != State::NotStarted ==> r == Ok::<i32, GetError>(self.scoring.team_b.cumulative_points),
    {
        match self.state {
            State::NotStarted => Err(GetError::GameNotStarted),
            _ => Ok(self.scoring.team_b.cumulative_points),
        }
    }

    pub fn get_team_a_bags(&self) -> (r: Result<i32, GetError>)
        ensures
            self.state == State::NotStarted ==> r == Err::<i32, GetError>(GetError::GameNotStarted),
            self.state != State::NotStarted ==> r == Ok::<i32, GetError>(self.scoring.team_a.bags),
    {
        match self.state {
            State::NotStarted => Err(GetError::GameNotStarted),
            _ => Ok(self.scoring.team_a.bags),
        }
    }

    pub fn get_team_b_bags(&self) -> (r: Result<i32, GetError>)
        ensures
            self.state == State::NotStarted ==> r == Err::<i32, GetError>(GetError::GameNotStarted),
            self.state != State::NotStarted ==> r == Ok::<i32, GetError>(self.scoring.team_b.bags),
    {
        match self.state {
            State::NotStarted => Err(GetError::GameNotStarted),
            _ => Ok(self.scoring.team_b.bags),
        }
    }

    /// The index (0 to 3) of the seat to act.
    pub fn get_current_player_index_num(&self) -> (r: usize)
        ensures
            r == self.current_player_index,
    {
        self.current_player_index
    }

    /// Whether the table is bidding in its first round, where a timeout aborts the game.
    pub fn is_first_round_betting(&self) -> (b: bool)
        ensures
            b == (self.state matches State::Betting(_) && self.scoring.round == 0),
    {
        match self.state {
            State::Betting(_) => self.scoring.round == 0,
            _ => false,
        }
    }

    /// The seat to act while bidding or playing, or why there is none.
    fn acting_seat(&self) -> (r: Result<usize, GetError>)
        requires
            self.wf(),
        ensures
            self.state == State::NotStarted ==> r == Err::<usize, GetError>(GetError::GameNotStarted),
            self.state.is_terminal_spec() ==> r == Err::<usize, GetError>(GetError::GameCompleted),
            (self.state matches State::Betting(_) || self.state matches State::Trick(_))
                ==> r == Ok::<usize, GetError>(self.current_player_index),
    {
        match self.state {
            State::NotStarted => Err(GetError::GameNotStarted),
            State::Completed => Err(GetError::GameCompleted),
            State::Aborted => Err(GetError::GameCompleted),
            _ => Ok(self.current_player_index),
        }
    }

    pub fn get_current_player_id(&self) -> (r: Result<u128, GetError>)
        requires
            self.wf(),
        ensures
            self.state == State::NotStarted ==> r == Err::<u128, GetError>(GetError::GameNotStarted),
            self.state.is_terminal_spec() ==> r == Err::<u128, GetError>(GetError::GameCompleted),
            (self.state matches State::Betting(_) || self.state matches State::Trick(_))
                ==> r == Ok::<u128, GetError>(self.player_ids@[self.current_player_index as int]),
    {
        match self.acting_seat() {
            Ok(i) => Ok(self.player_ids[i]),
            Err(e) => Err(e),
        }
    }

    /// The hand of the seat held by `player_id` (the first such seat).
    pub fn get_hand_by_player_id(&self, player_id: u128) -> (r: Result<&Vec<Card>, GetError>)
        ensures
            first_seat_of(self.player_ids@, player_id) < 4 ==> (r matches Ok(h)
                && h@ == self.hand(first_seat_of(self.player_ids@, player_id))),
            first_seat_of(self.player_ids@, player_id) == 4 ==> r matches Err(GetError::InvalidUuid),
    {
        if self.player_ids[0] == player_id {
            Ok(&self.hand_a)
        } else if self.player_ids[1] == player_id {
            Ok(&self.hand_b)
        } else if self.player_ids[2] == player_id {
            Ok(&self.hand_c)
        } else if self.player_ids[3] == player_id {
            Ok(&self.hand_d)
        } else {
            Err(GetError::InvalidUuid)
        }
    }

    /// The hand of the seat to act.
    pub fn get_current_hand(&self) -> (r: Result<&Vec<Card>, GetError>)
        requires
            self.wf(),
        ensures
            self.state == State::NotStarted ==> r matches Err(GetError::GameNotStarted),
            self.state.is_terminal_spec() ==> r matches Err(GetError::GameCompleted),
            (self.state matches State::Betting(_) || self.state matches State::Trick(_))
                ==> (r matches Ok(h) && h@ == self.hand(self.current_player_index as int)),
    {
        match self.acting_seat() {
            Ok(i) => Ok(self.hand_ref(i)),
            Err(e) => Err(e),
        }
    }

    fn hand_ref(&self, i: usize) -> (h: &Vec<Card>)
        requires
            i < 4,
        ensures
            h@ == self.hand(i as int),
    {
        if i == 0 {
            &self.hand_a
        } else if i == 1 {
            &self.hand_b
        } else if i == 2 {
            &self.hand_c
        } else {
            &self.hand_d
        }
    }

    pub fn get_leading_suit(&self) -> (r: Result<Suit, GetError>)
        ensures
            self.state == State::NotStarted ==> r == Err::<Suit, GetError>(GetError::GameNotStarted),
            self.state.is_terminal_spec() ==> r == Err::<Suit, GetError>(GetError::GameCompleted),
            self.state matches State::Betting(_) ==> r == Err::<Suit, GetError>(GetError::Unknown),
            self.state matches State::Trick(_) ==> r == Ok::<Suit, GetError>(self.leading_suit),
    {
        match self.state {
            State::NotStarted => Err(GetError::GameNotStarted),
            State::Trick(_) => Ok(self.leading_suit),
            State::Betting(_) => Err(GetError::Unknown),
            _ => Err(GetError::GameCompleted),
        }
    }

    /// The cards of the trick in progress, by seat (blank where a seat has not played).
    pub fn get_current_trick_cards(&self) -> (r: Result<[Card; 4], GetError>)
        ensures
            self.state == State::NotStarted ==> r matches Err(GetError::GameNotStarted),
            self.state matches State::Trick(_) ==> r == Ok::<[Card; 4], GetError>(self.trick_cards),
            (self.state.is_terminal_spec() || self.state matches State::Betting(_))
                ==> r matches Err(GetError::GameCompleted),
    {
        match self.state {
            State::NotStarted => Err(GetError::GameNotStarted),
            State::Trick(_) => Ok(self.trick_cards),
            _ => Err(GetError::GameCompleted),
        }
    }

    /// The two player ids of the winning partnership of a completed game.
    pub fn get_winner_ids(&self) -> (r: Result<(u128, u128), GetError>)
        ensures
            self.state == State::Completed && self.scoring.team_a.cumulative_points > self.scoring.team_b.cumulative_points
                ==> r == Ok::<(u128, u128), GetError>((self.player_ids@[0], self.player_ids@[2])),
            self.state == State::Completed && self.scoring.team_b.cumulative_points > self.scoring.team_a.cumulative_points
                ==> r == Ok::<(u128, u128), GetError>((self.player_ids@[1], self.player_ids@[3])),
            !(self.state == State::Completed && self.scoring.team_a.cumulative_points != self.scoring.team_b.cumulative_points)
                ==> r == Err::<(u128, u128), GetError>(GetError::GameNotCompleted),
    {
        match self.state {
            State::Completed => {
                let a = self.scoring.team_a.cumulative_points;
                let b = self.scoring.team_b.cumulative_points;
                if a > b {
                    Ok((self.player_ids[0], self.player_ids[2]))
                } else if b > a {
                    Ok((self.player_ids[1], self.player_ids[3]))
                } else {
                    Err(GetError::GameNotCompleted)
                }
            },
            _ => Err(GetError::GameNotCompleted),
        }
    }

    /// The cards the seat to act may play now; only during trick play.
    pub fn get_legal_cards(&self) -> (r: Result<Vec<Card>, GetError>)
        requires
            self.wf(),
        ensures
            !(self.state matches State::Trick(_)) ==> r matches Err(GetError::Unknown),
            self.state matches State::Trick(k) ==> (r matches Ok(v) && forall|c: Card| v@.contains(c)
                <==> is_legal(self.hand(self.current_player_index as int), c, self.leading_suit, k == 0)),
    {
        match self.state {
            State::Trick(k) => {
                let h = self.hand_ref(self.current_player_index);
                Ok(get_legal_cards(h, self.leading_suit, k == 0))
            },
            _ => Err(GetError::Unknown),
        }
    }


    /// Moves the table into a terminal phase (an abort, or a completion decided outside play).
    pub fn set_state(&mut self, s: State)
        requires
            old(self).wf(),
            s.is_terminal_spec(),
        ensures
            final(self).wf(),
            final(self).state == s,
            final(self).scoring == old(self).scoring,
            forall|i: int| 0 <= i < 4 ==> final(self).hand(i) == old(self).hand(i),
    {
        self.state = s;
    }

    /// Sets the display name of the seat held by `player_id`.
    pub fn set_player_name(&mut self, player_id: u128, name: Option<String>) -> (r: Result<(), GetError>)
        requires
            old(self).wf(),
        ensures
            final(self).wf(),
            first_seat_of(old(self).player_ids@, player_id) == 4 ==> r == Err::<(), GetError>(GetError::InvalidUuid)
                && final(self).player_names == old(self).player_names,
            first_seat_of(old(self).player_ids@, player_id) < 4 ==> r is Ok
                && final(self).player_names@ == old(self).player_names@.update(
                    first_seat_of(old(self).player_ids@, player_id), name),
            final(self).state == old(self).state,
            final(self).scoring == old(self).scoring,
            forall|i: int| 0 <= i < 4 ==> final(self).hand(i) == old(self).hand(i),
    {
        let i: usize = if self.player_ids[0] == player_id {
            0
        } else if self.player_ids[1] == player_id {
            1
        } else if self.player_ids[2] == player_id {
            2
        } else if self.player_ids[3] == player_id {
            3
        } else {
            return Err(GetError::InvalidUuid);
        };
        self.player_names[i] = name;
        Ok(())
    }

    /// Each seat's player id with its display name, in seat order.
    pub fn get_player_names(&self) -> (r: Vec<(u128, Option<String>)>)
        ensures
            r@.len() == 4,
            forall|i: int| 0 <= i < 4 ==> (#[trigger] r@[i]).0 == self.player_ids@[i],
    {
        let mut r: Vec<(u128, Option<String>)> = Vec::new();
        let mut i: usize = 0;
        while i < 4
            invariant
                0 <= i <= 4,
                r@.len() == i,
                forall|j: int| 0 <= j < i ==> (#[trigger] r@[j]).0 == self.player_ids@[j],
            decreases 4 - i,
        {
            let name = match &self.player_names[i] {
                Some(n) => Some(n.clone()),
                None => None,
            };
            r.push((self.player_ids[i], name));
            i = i + 1;
        }
        r
    }

    /// Ends the game early (a timeout in first-round bidding); the table takes no more moves.
    pub fn abort(&mut self)
        requires
            old(self).wf(),
        ensures
            final(self).wf(),
            final(self).state == State::Aborted,
            final(self).scoring == old(self).scoring,
            forall|i: int| 0 <= i < 4 ==> final(self).hand(i) == old(self).hand(i),
    {
        self.state = State::Aborted;
    }

    /// The hand of seat `player` (0 to 3); any larger index gives seat D's hand.
    pub fn get_hand(&self, player: usize) -> (h: &Vec<Card>)
        ensures
            h@ == self.hand(if player < 4 { player as int } else { 3 }),
    {
        if player < 4 {
            self.hand_ref(player)
        } else {
            &self.hand_d
        }
    }

    /// Plays `c` for the acting seat in phase `Trick(k)`.
    #[verifier::rlimit(60)]
    fn play_card(&mut self, k: usize, c: Card) -> (r: Result<TransitionSuccess, TransitionError>)
        requires
            old(self).wf(),
            old(self).state == State::Trick(k),
            old(self).scoring.round < MAX_ROUNDS,
        ensures
            final(self).wf(),
            card_trick_outcome(*old(self), k, c, *final(self), r),
    {
        let i = self.current_player_index;
        let first = k == 0;
        match self.check_play(i, c, first) {
            Some(e) => {
                return Err(e);
            },
            None => {},
        }
        if first {
            self.leading_suit = c.suit;
        }
        let ghost before_move = *self;
        self.move_to_deck(i, c);
        let ghost j = choose|j: int| 0 <= j < before_move.hand(i as int).len() && before_move.hand(i as int)[j] == c
            && self.hand(i as int) == before_move.hand(i as int).remove(j);
        self.trick_cards[i] = c;
        assert(self.trick_cards@ == old(self).trick_cards@.update(i as int, c));
        if k < 3 {
            self.current_player_index = (i + 1) % 4;
            self.state = State::Trick(k + 1);
            assert(old(self).hand(i as int)[j] == c && self.hand(i as int) == old(self).hand(i as int).remove(j));
            assert forall|o: int| 0 <= o < 4 && o != i implies self.hand(o) == old(self).hand(o) by {
                assert(before_move.hand(o) == old(self).hand(o));
            }
            assert(is_legal(old(self).hand(i as int), c, old(self).leading_suit, first));
            assert(self.trick_cards@ == old(self).trick_cards@.update(i as int, c));
            assert(self.leading_suit == (if first { c.suit } else { old(self).leading_suit }));
            return Ok(TransitionSuccess::PlayCard);
        }
        let winner = self.scoring.trick(self.leader, &self.trick_cards);
        assert(is_trick_winner(old(self).leader as int, old(self).trick_cards@.update(i as int, c), winner as int));
        self.trick_cards = new_pot();
        if self.scoring.is_over {
            self.state = State::Completed;
            return Ok(TransitionSuccess::GameOver);
        }
        if self.scoring.in_betting_stage {
            self.current_player_index = 0;
            self.leader = 0;
            self.state = State::Betting(0);
            self.deal_cards();
        } else {
            self.current_player_index = winner;
            self.leader = winner;
            self.state = State::Trick(0);
        }
        Ok(TransitionSuccess::Trick)
    }

    /// Applies a move: `Start`, a bid, or a card for the acting seat.
    pub fn play(&mut self, entry: GameTransition) -> (r: Result<TransitionSuccess, TransitionError>)
        requires
            old(self).wf(),
            old(self).scoring.round < MAX_ROUNDS,
            entry matches GameTransition::Bet(n) ==> valid_bet(n),
        ensures
            final(self).wf(),
            phase_error(old(self).state, entry) matches Some(e) ==> r == Err::<TransitionSuccess, TransitionError>(e)
                && *final(self) == *old(self),
            phase_error(old(self).state, entry) is None ==> match entry {
                GameTransition::Start => {
                    &&& r == Ok::<TransitionSuccess, TransitionError>(TransitionSuccess::Start)
                    &&& final(self).state == State::Betting(0)
                    &&& final(self).current_player_index == 0
                    &&& final(self).freshly_dealt()
                    &&& final(self).scoring == old(self).scoring
                },
                GameTransition::Bet(n) => bet_outcome(*old(self), n, *final(self), r),
                GameTransition::Card(c) => match old(self).state {
                    State::Trick(k) => card_trick_outcome(*old(self), k, c, *final(self), r),
                    _ => false,
                },
            },
    {
        match entry {
            GameTransition::Start => {
                match self.state {
                    State::NotStarted => {},
                    _ => {
                        return Err(TransitionError::AlreadyStarted);
                    },
                }
                self.state = State::Betting(0);
                self.deal_cards();
                Ok(TransitionSuccess::Start)
            },
            GameTransition::Bet(bet) => match self.state {
                State::NotStarted => Err(TransitionError::NotStarted),
                State::Trick(_) => Err(TransitionError::BetInTrickStage),
                State::Betting(k) => {
                    self.scoring.add_bet(self.current_player_index, bet);
                    if k == 3 {
                        self.scoring.bet();
                        self.state = State::Trick(0);
                        self.current_player_index = 0;
                        self.leader = 0;
                        Ok(TransitionSuccess::BetComplete)
                    } else {
                        self.current_player_index = k + 1;
                        self.state = State::Betting(k + 1);
                        Ok(TransitionSuccess::Bet)
                    }
                },
                _ => Err(TransitionError::CompletedGame),
            },
            GameTransition::Card(c) => match self.state {
                State::NotStarted => Err(TransitionError::NotStarted),
                State::Betting(_) => Err(TransitionError::CardInBettingStage),
                State::Trick(k) => self.play_card(k, c),
                _ => Err(TransitionError::CompletedGame),
            },
        }
    }

    /// Gathers every card into the deck, shuffles, deals thirteen to each seat and sorts the hands.
    fn deal_cards(&mut self)
        requires
            old(self).all_cards() == standard_deck().to_multiset(),
        ensures
            final(self).all_cards() == standard_deck().to_multiset(),
            final(self).freshly_dealt(),
            final(self).id == old(self).id,
            final(self).player_ids == old(self).player_ids,
            final(self).state == old(self).state,
            final(self).scoring == old(self).scoring,
            final(self).current_player_index == old(self).current_player_index,
            final(self).leader == old(self).leader,
            final(self).trick_cards == old(self).trick_cards,
            final(self).leading_suit == old(self).leading_suit,
    {
        let ghost d0 = self.deck@;
        let ghost a0 = self.hand_a@;
        let ghost b0 = self.hand_b@;
        let ghost c0 = self.hand_c@;
        let ghost e0 = self.hand_d@;
        self.deck.append(&mut self.hand_a);
        self.deck.append(&mut self.hand_b);
        self.deck.append(&mut self.hand_c);
        self.deck.append(&mut self.hand_d);
        proof {
            broadcast use vstd::multiset::group_multiset_axioms;
            vstd::seq_lib::lemma_multiset_commutative(d0, a0);
            vstd::seq_lib::lemma_multiset_commutative(d0 + a0, b0);
            vstd::seq_lib::lemma_multiset_commutative(d0 + a0 + b0, c0);
            vstd::seq_lib::lemma_multiset_commutative(d0 + a0 + b0 + c0, e0);
            assert(self.deck@ == d0 + a0 + b0 + c0 + e0);
            assert(self.deck@.to_multiset() =~= standard_deck().to_multiset());
            self.deck@.to_multiset_ensures();
            standard_deck().to_multiset_ensures();
        }
        let mut hands = deal_four_players(&mut self.deck);
        let ghost hs = hands@;
        let mut a = hands.pop().unwrap();
        let mut b = hands.pop().unwrap();
        let mut c = hands.pop().unwrap();
        let mut d = hands.pop().unwrap();
        assert(a == hs[3] && b == hs[2] && c == hs[1] && d == hs[0]);
        sort_hand(&mut a);
        sort_hand(&mut b);
        sort_hand(&mut c);
        sort_hand(&mut d);
        proof {
            broadcast use vstd::multiset::group_multiset_axioms;
            a@.to_multiset_ensures();
            b@.to_multiset_ensures();
            c@.to_multiset_ensures();
            d@.to_multiset_ensures();
            hs[0]@.to_multiset_ensures();
            hs[1]@.to_multiset_ensures();
            hs[2]@.to_multiset_ensures();
            hs[3]@.to_multiset_ensures();
            lemma_empty_multiset(self.deck@);
        }
        self.hand_a = a;
        self.hand_b = b;
        self.hand_c = c;
        self.hand_d = d;
        assert(self.all_cards() =~= standard_deck().to_multiset());
    }
}

} // verus!
