use vstd::prelude::*;
use crate::cards::{Card, get_trick_winner, is_trick_winner};

verus! {

/// Largest bid the scoring engine accepts, so that round arithmetic stays in `i32`.
pub const MAX_BET: i32 = 1000;

/// Bound on a cumulative score below which a round can always be settled in `i32`.
pub const MAX_POINTS_MAGNITUDE: i32 = 2000000000;

/// Bound on a bag count below which a round can always be settled in `i32`.
pub const MAX_BAGS: i32 = 1000000000;

/// A partnership's score moves by less than this in one round (bids are at most `MAX_BET`).
pub const POINTS_PER_ROUND: i32 = 25000;

/// Number of rounds after which scores could leave `i32`; a round is only settled below it.
pub const MAX_ROUNDS: usize = 80000;

#[derive(Debug)]
pub struct GameConfig {
    pub max_points: i32,
}

/// One partnership's record: tricks won this round (one slot per trick), bags and score.
#[derive(Debug)]
pub struct TeamState {
    pub current_round_tricks_won: [i32; 13],
    pub bags: i32,
    pub cumulative_points: i32,
}

/// Sum of a sequence of counters.
pub open spec fn seq_sum(s: Seq<i32>) -> int
    decreases s.len(),
{
    if s.len() == 0 {
        0
    } else {
        seq_sum(s.drop_last()) + s.last() as int
    }
}

/// Points from the partnership contract: `B * 10 + (T - B)` when made, `-B * 10` when set.
pub open spec fn contract_points(bid: int, tricks: int) -> int {
    if tricks >= bid {
        bid * 10 + (tricks - bid)
    } else {
        -(bid * 10)
    }
}

/// Bags earned from the contract: the overtricks when made, none when set.
pub open spec fn contract_bags(bid: int, tricks: int) -> int {
    if tricks >= bid {
        tricks - bid
    } else {
        0
    }
}

/// Points from one partner's nil bid: +100 if the nil bidder took no trick, -100 if it took any.
pub open spec fn nil_points(bet: int, won_a_trick: bool) -> int {
    if bet != 0 {
        0
    } else if won_a_trick {
        -100
    } else {
        100
    }
}

/// Score after a round, before any bag penalty.
pub open spec fn points_before_penalty(points: int, b1: int, w1: bool, b2: int, w2: bool, tricks: int) -> int {
    points + contract_points(b1 + b2, tricks) + nil_points(b1, w1) + nil_points(b2, w2)
}

/// Score after settling a round: contract, nils, then 100 off when the bags reach ten.
pub open spec fn settled_points(points: int, bags: int, b1: int, w1: bool, b2: int, w2: bool, tricks: int) -> int {
    let p = points_before_penalty(points, b1, w1, b2, w2, tricks);
    if bags + contract_bags(b1 + b2, tricks) >= 10 {
        p - 100
    } else {
        p
    }
}

/// Bags after settling a round: overtricks added, ten taken away when they reach ten.
pub open spec fn settled_bags(bags: int, b1: int, b2: int, tricks: int) -> int {
    let g = bags + contract_bags(b1 + b2, tricks);
    if g >= 10 {
        g - 10
    } else {
        g
    }
}

pub open spec fn valid_bet(b: i32) -> bool {
    0 <= b <= MAX_BET
}

impl TeamState {
    /// Every trick slot holds 0 or 1, and the totals are within the settling bounds.
    pub open spec fn wf(&self) -> bool {
        &&& forall|k: int| 0 <= k < 13 ==> 0 <= #[trigger] self.current_round_tricks_won@[k] <= 1
        &&& 0 <= self.bags <= MAX_BAGS
        &&& -MAX_POINTS_MAGNITUDE <= self.cumulative_points <= MAX_POINTS_MAGNITUDE
    }

    pub open spec fn tricks(&self) -> int {
        seq_sum(self.current_round_tricks_won@)
    }

    pub fn new() -> (t: TeamState)
        ensures
            t.wf(),
            t.tricks() == 0,
            forall|k: int| 0 <= k < 13 ==> #[trigger] t.current_round_tricks_won@[k] == 0,
            t.bags == 0,
            t.cumulative_points == 0,
    {
        let t = TeamState { current_round_tricks_won: [0; 13], bags: 0, cumulative_points: 0 };
        proof {
            lemma_sum_zero(t.current_round_tricks_won@);
        }
        t
    }

    fn count_tricks(&self) -> (n: i32)
        requires
            self.wf(),
        ensures
            n as int == self.tricks(),
            0 <= n <= 13,
    {
        let mut n: i32 = 0;
        let mut k: usize = 0;
        while k < 13
            invariant
                self.wf(),
                0 <= k <= 13,
                n as int == seq_sum(self.current_round_tricks_won@.take(k as int)),
                0 <= n <= k,
            decreases 13 - k,
        {
            assert(self.current_round_tricks_won@.take(k + 1).drop_last()
                =~= self.current_round_tricks_won@.take(k as int));
            n = n + self.current_round_tricks_won[k];
            k = k + 1;
        }
        assert(self.current_round_tricks_won@.take(13) =~= self.current_round_tricks_won@);
        n
    }

    /// Settles the round for this partnership, given each partner's bid and whether that
    /// partner won a trick this round.
    pub fn calculate_round_totals(&mut self, first_bet: i32, first_nil: bool, second_bet: i32, second_nil: bool)
        requires
            old(self).wf(),
            valid_bet(first_bet),
            valid_bet(second_bet),
        ensures
            final(self).current_round_tricks_won == old(self).current_round_tricks_won,
            final(self).cumulative_points as int == settled_points(
                old(self).cumulative_points as int, old(self).bags as int,
                first_bet as int, first_nil, second_bet as int, second_nil, old(self).tricks()),
            final(self).bags as int == settled_bags(
                old(self).bags as int, first_bet as int, second_bet as int, old(self).tricks()),
    {
        let team_tricks = self.count_tricks();
        let team_bets = first_bet + second_bet;
        if team_tricks >= team_bets {
            let round_bags = team_tricks - team_bets;
            self.bags = self.bags + round_bags;
            self.cumulative_points = self.cumulative_points + round_bags + team_bets * 10;
        } else {
            self.cumulative_points = self.cumulative_points - team_bets * 10;
        }
        if first_bet == 0 {
            if first_nil {
                self.cumulative_points = self.cumulative_points - 100;
            } else {
                self.cumulative_points = self.cumulative_points + 100;
            }
        }
        if second_bet == 0 {
            if second_nil {
                self.cumulative_points = self.cumulative_points - 100;
            } else {
                self.cumulative_points = self.cumulative_points + 100;
            }
        }
        if self.bags >= 10 {
            self.bags = self.bags - 10;
            self.cumulative_points = self.cumulative_points - 100;
        }
    }
}


/// The whole scoring record of a table.
#[derive(Debug)]
pub struct Scoring {
    pub config: GameConfig,
    pub team_a: TeamState,
    pub team_b: TeamState,
    pub in_betting_stage: bool,
    pub bets_placed: Vec<[i32; 4]>,
    pub is_over: bool,
    pub round: usize,
    pub trick: usize,
    pub nil_check: [bool; 4],
}

/// The game ends when exactly one partnership reached `max`, or both did with different scores.
pub open spec fn game_over(a: int, b: int, max: int) -> bool {
    (a >= max || b >= max) && !(a >= max && b >= max && a == b)
}

/// The trick slots after one more trick in slot `k` for the partnership that took it.
pub open spec fn tricks_after_win(t: Seq<i32>, k: int) -> Seq<i32> {
    t.update(k, (t[k] + 1) as i32)
}

/// After `round` settled rounds a score moved at most `POINTS_PER_ROUND` per round and bags
/// grew at most 13 per round.
pub open spec fn team_bounded(t: TeamState, round: int) -> bool {
    &&& -(POINTS_PER_ROUND * round) <= t.cumulative_points <= POINTS_PER_ROUND * round
    &&& t.bags <= 13 * round
}

impl Scoring {
    pub open spec fn wf(&self) -> bool {
        &&& self.team_a.wf()
        &&& self.team_b.wf()
        &&& self.trick < 13
        &&& self.round <= MAX_ROUNDS
        &&& self.in_betting_stage ==> self.trick == 0 && self.round + 1 == self.bets_placed@.len()
        &&& !self.in_betting_stage ==> self.round + 2 == self.bets_placed@.len()
        &&& self.team_a.tricks() >= 0
        &&& self.team_b.tricks() >= 0
        &&& team_bounded(self.team_a, self.round as int)
        &&& team_bounded(self.team_b, self.round as int)
        &&& self.team_a.tricks() + self.team_b.tricks() == self.trick
        &&& forall|k: int| self.trick <= k < 13 ==> #[trigger] self.team_a.current_round_tricks_won@[k] == 0
        &&& forall|k: int| self.trick <= k < 13 ==> #[trigger] self.team_b.current_round_tricks_won@[k] == 0
        &&& forall|r: int, i: int| 0 <= r < self.bets_placed@.len() && 0 <= i < 4 ==> valid_bet(#[trigger] self.bets_placed@[r]@[i])
    }

    pub fn new(max_points: i32) -> (s: Scoring)
        ensures
            s.wf(),
            s.config.max_points == max_points,
            s.team_a.cumulative_points == 0 && s.team_b.cumulative_points == 0,
            s.team_a.bags == 0 && s.team_b.bags == 0,
            s.in_betting_stage,
            !s.is_over,
            s.round == 0,
            s.trick == 0,
            s.bets_placed@.len() == 1,
            s.bets_placed@[0]@ == seq![0i32, 0, 0, 0],
            forall|i: int| 0 <= i < 4 ==> !#[trigger] s.nil_check@[i],
    {
        let s = Scoring {
            team_a: TeamState::new(),
            team_b: TeamState::new(),
            in_betting_stage: true,
            bets_placed: vec![[0; 4]],
            is_over: false,
            round: 0,
            trick: 0,
            config: GameConfig { max_points },
            nil_check: [false, false, false, false],
        };
        assert(s.bets_placed@[0]@ =~= seq![0i32, 0, 0, 0]);
        s
    }

    /// Records `bet` for seat `current_player_index` in the latest row of bets.
    pub fn add_bet(&mut self, current_player_index: usize, bet: i32)
        requires
            current_player_index < 4,
            valid_bet(bet),
            old(self).wf(),
            old(self).bets_placed@.len() > 0,
        ensures
            final(self).wf(),
            final(self).bets_placed@.len() == old(self).bets_placed@.len(),
            final(self).bets_placed@.drop_last() == old(self).bets_placed@.drop_last(),
            final(self).bets_placed@.last()@ == old(self).bets_placed@.last()@.update(current_player_index as int, bet),
            final(self).team_a == old(self).team_a,
            final(self).team_b == old(self).team_b,
            final(self).round == old(self).round,
            final(self).trick == old(self).trick,
            final(self).is_over == old(self).is_over,
            final(self).in_betting_stage == old(self).in_betting_stage,
            final(self).nil_check == old(self).nil_check,
            final(self).config == old(self).config,
    {
        let n = self.bets_placed.len();
        let mut row = self.bets_placed[n - 1];
        row[current_player_index] = bet;
        self.bets_placed.set(n - 1, row);
        assert(self.bets_placed@.drop_last() =~= old(self).bets_placed@.drop_last());
    }

    /// Closes the betting stage: trick play starts at the first trick, and a fresh row of bets is opened.
    pub fn bet(&mut self)
        requires
            old(self).wf(),
            old(self).in_betting_stage,
        ensures
            final(self).wf(),
            final(self).trick == 0,
            !final(self).in_betting_stage,
            final(self).bets_placed@.len() == old(self).bets_placed@.len() + 1,
            final(self).bets_placed@.drop_last() == old(self).bets_placed@,
            final(self).bets_placed@.last()@ == seq![0i32, 0, 0, 0],
            final(self).team_a == old(self).team_a,
            final(self).team_b == old(self).team_b,
            final(self).round == old(self).round,
            final(self).is_over == old(self).is_over,
            final(self).nil_check == old(self).nil_check,
            final(self).config == old(self).config,
    {
        self.trick = 0;
        self.in_betting_stage = false;
        self.bets_placed.push([0; 4]);
        assert(self.bets_placed@.drop_last() =~= old(self).bets_placed@);
        assert(self.bets_placed@.last()@ =~= seq![0i32, 0, 0, 0]);
    }

    /// Resolves a complete trick led by `starting_player_index` and returns the winning seat.
    /// After the thirteenth trick the round is settled and the game-over check is made.
    #[verifier::rlimit(50)]
    pub fn trick(&mut self, starting_player_index: usize, cards: &[Card; 4]) -> (winner: usize)
        requires
            starting_player_index < 4,
            old(self).wf(),
            !old(self).in_betting_stage,
            old(self).trick == 12 ==> old(self).round < MAX_ROUNDS,
        ensures
            is_trick_winner(starting_player_index as int, cards@, winner as int),
            final(self).config == old(self).config,
            final(self).bets_placed == old(self).bets_placed,
            old(self).trick < 12 ==> {
                &&& final(self).trick == old(self).trick + 1
                &&& final(self).round == old(self).round
                &&& final(self).is_over == old(self).is_over
                &&& final(self).in_betting_stage == old(self).in_betting_stage
                &&& final(self).nil_check@ == old(self).nil_check@.update(winner as int, true)
                &&& final(self).team_a.bags == old(self).team_a.bags
                &&& final(self).team_b.bags == old(self).team_b.bags
                &&& final(self).team_a.cumulative_points == old(self).team_a.cumulative_points
                &&& final(self).team_b.cumulative_points == old(self).team_b.cumulative_points
                &&& final(self).team_a.current_round_tricks_won@ == (if winner % 2 == 0 {
                    tricks_after_win(old(self).team_a.current_round_tricks_won@, old(self).trick as int)
                } else {
                    old(self).team_a.current_round_tricks_won@
                })
                &&& final(self).team_b.current_round_tricks_won@ == (if winner % 2 == 1 {
                    tricks_after_win(old(self).team_b.current_round_tricks_won@, old(self).trick as int)
                } else {
                    old(self).team_b.current_round_tricks_won@
                })
                &&& final(self).wf()
            },
            old(self).trick == 12 ==> {
                let bets = old(self).bets_placed@[old(self).round as int];
                let won = old(self).nil_check@.update(winner as int, true);
                let ta = old(self).team_a.tricks() + (if winner % 2 == 0 { 1int } else { 0 });
                let tb = old(self).team_b.tricks() + (if winner % 2 == 1 { 1int } else { 0 });
                &&& final(self).team_a.cumulative_points as int == settled_points(
                    old(self).team_a.cumulative_points as int, old(self).team_a.bags as int,
                    bets@[0] as int, won[0], bets@[2] as int, won[2], ta)
                &&& final(self).team_a.bags as int == settled_bags(
                    old(self).team_a.bags as int, bets@[0] as int, bets@[2] as int, ta)
                &&& final(self).team_b.cumulative_points as int == settled_points(
                    old(self).team_b.cumulative_points as int, old(self).team_b.bags as int,
                    bets@[1] as int, won[1], bets@[3] as int, won[3], tb)
                &&& final(self).team_b.bags as int == settled_bags(
                    old(self).team_b.bags as int, bets@[1] as int, bets@[3] as int, tb)
                &&& ta + tb == 13
                &&& forall|k: int| 0 <= k < 13 ==> #[trigger] final(self).team_a.current_round_tricks_won@[k] == 0
                &&& forall|k: int| 0 <= k < 13 ==> #[trigger] final(self).team_b.current_round_tricks_won@[k] == 0
                &&& final(self).team_a.tricks() == 0
                &&& final(self).team_b.tricks() == 0
                &&& forall|i: int| 0 <= i < 4 ==> !#[trigger] final(self).nil_check@[i]
                &&& final(self).in_betting_stage
                &&& final(self).round == old(self).round + 1
                &&& final(self).trick == 0
                &&& final(self).wf()
                &&& final(self).is_over == game_over(
                    final(self).team_a.cumulative_points as int,
                    final(self).team_b.cumulative_points as int,
                    old(self).config.max_points as int)
            },
    {
        let winner = get_trick_winner(starting_player_index, cards);
        self.nil_check[winner] = true;
        let k = self.trick;
        if winner % 2 == 0 {
            let mut t = self.team_a.current_round_tricks_won;
            t[k] = t[k] + 1;
            self.team_a.current_round_tricks_won = t;
        } else {
            let mut t = self.team_b.current_round_tricks_won;
            t[k] = t[k] + 1;
            self.team_b.current_round_tricks_won = t;
        }
        proof {
            if winner % 2 == 0 {
                lemma_sum_update(old(self).team_a.current_round_tricks_won@, self.team_a.current_round_tricks_won@, k as int);
            } else {
                lemma_sum_update(old(self).team_b.current_round_tricks_won@, self.team_b.current_round_tricks_won@, k as int);
            }
        }
        if self.trick == 12 {
            let bets = self.bets_placed[self.round];
            let won = self.nil_check;
            proof {
                lemma_settle_bounded(self.team_a, bets@[0] as int, won[0], bets@[2] as int, won[2], self.round as int);
                lemma_settle_bounded(self.team_b, bets@[1] as int, won[1], bets@[3] as int, won[3], self.round as int);
            }
            self.team_a.calculate_round_totals(bets[0], won[0], bets[2], won[2]);
            self.team_b.calculate_round_totals(bets[1], won[1], bets[3], won[3]);
            self.nil_check = [false; 4];
            self.in_betting_stage = true;
            self.team_a.current_round_tricks_won = [0; 13];
            self.team_b.current_round_tricks_won = [0; 13];
            proof {
                lemma_sum_zero(self.team_a.current_round_tricks_won@);
                lemma_sum_zero(self.team_b.current_round_tricks_won@);
            }
            let a = self.team_a.cumulative_points;
            let b = self.team_b.cumulative_points;
            let max = self.config.max_points;
            self.is_over = (a >= max || b >= max) && !(a >= max && b >= max && a == b);
            self.round = self.round + 1;
            self.trick = 0;
        } else {
            self.trick = self.trick + 1;
        }
        winner
    }
}

/// Settling a round keeps a partnership within the per-round bounds.
proof fn lemma_settle_bounded(t: TeamState, b1: int, w1: bool, b2: int, w2: bool, round: int)
    requires
        team_bounded(t, round),
        0 <= round,
        0 <= t.bags,
        0 <= t.tricks() <= 13,
        0 <= b1 <= MAX_BET,
        0 <= b2 <= MAX_BET,
    ensures
        ({
            let p = settled_points(t.cumulative_points as int, t.bags as int, b1, w1, b2, w2, t.tricks());
            let g = settled_bags(t.bags as int, b1, b2, t.tricks());
            -(POINTS_PER_ROUND * (round + 1)) <= p <= POINTS_PER_ROUND * (round + 1) && 0 <= g <= 13 * (round + 1)
        }),
{
}

/// Adding one in an empty slot `k` adds one to the sum.
proof fn lemma_sum_update(s: Seq<i32>, t: Seq<i32>, k: int)
    requires
        0 <= k < s.len(),
        s.len() == t.len(),
        t[k] == s[k] + 1,
        forall|j: int| 0 <= j < s.len() && j != k ==> t[j] == s[j],
    ensures
        seq_sum(t) == seq_sum(s) + 1,
    decreases s.len(),
{
    if k < s.len() - 1 {
        lemma_sum_update(s.drop_last(), t.drop_last(), k);
    } else {
        assert(s.drop_last() =~= t.drop_last());
    }
}

proof fn lemma_sum_zero(s: Seq<i32>)
    requires
        forall|k: int| 0 <= k < s.len() ==> s[k] == 0,
    ensures
        seq_sum(s) == 0,
    decreases s.len(),
{
    if s.len() > 0 {
        lemma_sum_zero(s.drop_last());
    }
}

} // verus!
