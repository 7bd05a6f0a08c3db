use spades::cards::{Card, Rank, Suit};
use spades::game::Game;
use spades::outcomes::{GameTransition, State, TransitionSuccess};

const SUITS: [Suit; 4] = [Suit::Club, Suit::Diamond, Suit::Heart, Suit::Spade];
const RANKS: [Rank; 12] = [
    Rank::Three, Rank::Four, Rank::Five, Rank::Six, Rank::Seven, Rank::Eight,
    Rank::Nine, Rank::Ten, Rank::Jack, Rank::Queen, Rank::King, Rank::Ace,
];

/// A deal in which trick `t` (of the first twelve) is played in suit `t / 3`, every seat
/// follows, and seat `winners[t]` holds the highest card of it. Each seat keeps the Two of its
/// own suit for the thirteenth trick, which the Two of spades (seat D) wins.
fn scripted_deal(winners: &[usize; 12]) -> ([Vec<Card>; 4], Vec<[Card; 4]>) {
    let mut hands: [Vec<Card>; 4] = [Vec::new(), Vec::new(), Vec::new(), Vec::new()];
    let mut tricks = Vec::new();
    for t in 0..12 {
        let suit = SUITS[t / 3];
        let g = t % 3;
        let ranks = &RANKS[4 * g..4 * g + 4];
        let mut trick = [Card { suit, rank: ranks[0] }; 4];
        let mut low = 0;
        for seat in 0..4 {
            let rank = if seat == winners[t] {
                ranks[3]
            } else {
                low += 1;
                ranks[low - 1]
            };
            trick[seat] = Card { suit, rank };
            hands[seat].push(trick[seat]);
        }
        tricks.push(trick);
    }
    let mut last = [Card { suit: Suit::Club, rank: Rank::Two }; 4];
    for seat in 0..4 {
        last[seat] = Card { suit: SUITS[seat], rank: Rank::Two };
        hands[seat].push(last[seat]);
    }
    tricks.push(last);
    (hands, tricks)
}

/// Starts a table, bids `bets`, installs the scripted deal and plays the round through.
fn play_scripted_round(g: &mut Game, bets: [i32; 4], winners: [usize; 12]) {
    g.play(GameTransition::Start).unwrap();
    for b in bets {
        g.play(GameTransition::Bet(b)).unwrap();
    }
    let (hands, tricks) = scripted_deal(&winners);
    let [a, b, c, d] = hands;
    g.hand_a = a;
    g.hand_b = b;
    g.hand_c = c;
    g.hand_d = d;
    g.deck = Vec::new();
    let mut leader = 0;
    for (t, trick) in tricks.iter().enumerate() {
        assert_eq!(g.get_current_player_index_num(), leader);
        for k in 0..4 {
            let seat = (leader + k) % 4;
            let r = g.play(GameTransition::Card(trick[seat])).unwrap();
            if k < 3 {
                assert_eq!(r, TransitionSuccess::PlayCard);
            } else if t < 12 {
                assert_eq!(r, TransitionSuccess::Trick);
            } else {
                assert!(r == TransitionSuccess::Trick || r == TransitionSuccess::GameOver);
            }
        }
        if t < 12 {
            leader = winners[t];
        }
    }
}

#[test]
fn bid_and_make_through_table() {
    let mut g = Game::new(1, [11, 22, 33, 44], 500);
    play_scripted_round(&mut g, [3, 3, 3, 3], [0, 2, 0, 2, 0, 2, 1, 3, 1, 3, 1, 3]);
    // Team A: bid 6, took 6. Team B: bid 6, took 7 (one bag).
    assert_eq!(g.get_team_a_score(), Ok(60));
    assert_eq!(g.get_team_b_score(), Ok(61));
    assert_eq!(g.get_team_a_bags(), Ok(0));
    assert_eq!(g.get_team_b_bags(), Ok(1));
    assert_eq!(g.get_state(), State::Betting(0));
    assert_eq!(g.get_current_player_index_num(), 0);
}

#[test]
fn broken_nil_through_table() {
    let mut g = Game::new(1, [11, 22, 33, 44], 500);
    // Seat A bids nil and takes exactly one trick; its partner C takes five.
    play_scripted_round(&mut g, [0, 3, 3, 3], [0, 2, 2, 2, 2, 2, 1, 3, 1, 3, 1, 3]);
    assert_eq!(g.get_team_a_score(), Ok(33 - 100));
    assert_eq!(g.get_team_a_bags(), Ok(3));
    assert_eq!(g.get_team_b_score(), Ok(61));
}

#[test]
fn successful_nil_through_table() {
    let mut g = Game::new(1, [11, 22, 33, 44], 500);
    play_scripted_round(&mut g, [0, 3, 3, 3], [2, 2, 2, 2, 2, 2, 1, 3, 1, 3, 1, 3]);
    assert_eq!(g.get_team_a_score(), Ok(33 + 100));
}

#[test]
fn bag_penalty_through_table() {
    let mut g = Game::new(1, [11, 22, 33, 44], 500);
    g.scoring.team_a.bags = 7;
    play_scripted_round(&mut g, [1, 4, 1, 4], [0, 2, 0, 2, 0, 1, 3, 1, 3, 1, 3, 1]);
    // Team A: bid 2, took 5: +23, bags 7 + 3 = 10 -> bags 0 and -100.
    assert_eq!(g.get_team_a_score(), Ok(-77));
    assert_eq!(g.get_team_a_bags(), Ok(0));
    assert_eq!(g.get_team_b_score(), Ok(80));
}

#[test]
fn crossing_target_completes_game() {
    let mut g = Game::new(1, [11, 22, 33, 44], 50);
    play_scripted_round(&mut g, [3, 3, 3, 3], [0, 2, 0, 2, 0, 2, 0, 3, 1, 3, 1, 3]);
    // Team A: 7 tricks on 6 -> 61; team B: 6 tricks on 6 -> 60. Both crossed 50, A is higher.
    assert_eq!(g.get_state(), State::Completed);
    assert_eq!(g.get_winner_ids(), Ok((11, 33)));
}
