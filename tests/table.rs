use spades::cards::{Card, Rank, Suit};
use spades::game::Game;
use spades::outcomes::{GameTransition, GetError, State, TransitionError, TransitionSuccess};

const PIDS: [u128; 4] = [11, 22, 33, 44];

fn make_started_game() -> (Game, [u128; 4]) {
    let mut g = Game::new(1, PIDS, 500);
    g.play(GameTransition::Start).unwrap();
    (g, PIDS)
}

fn make_game_in_trick_state() -> (Game, [u128; 4]) {
    let (mut g, pids) = make_started_game();
    for _ in 0..4 {
        g.play(GameTransition::Bet(3)).unwrap();
    }
    assert!(matches!(g.get_state(), State::Trick(0)));
    (g, pids)
}

fn first_legal(g: &Game) -> Card {
    g.get_legal_cards().unwrap()[0]
}

#[test]
fn test_get_current_player_id_not_started() {
    let g = Game::new(1, PIDS, 500);
    assert_eq!(g.get_current_player_id(), Err(GetError::GameNotStarted));
}

#[test]
fn test_get_current_player_id_completed() {
    let mut g = Game::new(1, PIDS, 500);
    g.set_state(State::Completed);
    assert_eq!(g.get_current_player_id(), Err(GetError::GameCompleted));
}

#[test]
fn test_get_current_hand_not_started() {
    let g = Game::new(1, PIDS, 500);
    assert_eq!(g.get_current_hand(), Err(GetError::GameNotStarted));
}

#[test]
fn test_get_current_hand_completed() {
    let mut g = Game::new(1, PIDS, 500);
    g.set_state(State::Completed);
    assert_eq!(g.get_current_hand(), Err(GetError::GameCompleted));
}

#[test]
fn test_get_leading_suit_not_started() {
    let g = Game::new(1, PIDS, 500);
    assert_eq!(g.get_leading_suit(), Err(GetError::GameNotStarted));
}

#[test]
fn test_get_leading_suit_completed() {
    let mut g = Game::new(1, PIDS, 500);
    g.set_state(State::Completed);
    assert_eq!(g.get_leading_suit(), Err(GetError::GameCompleted));
}

#[test]
fn test_get_leading_suit_betting() {
    let (g, _) = make_started_game();
    assert_eq!(g.get_leading_suit(), Err(GetError::Unknown));
}

#[test]
fn test_get_leading_suit_trick() {
    let (g, _) = make_game_in_trick_state();
    assert!(g.get_leading_suit().is_ok());
}

#[test]
fn test_get_current_trick_cards_in_trick() {
    let (g, _) = make_game_in_trick_state();
    let cards = g.get_current_trick_cards().unwrap();
    assert_eq!(cards.len(), 4);
}

#[test]
fn test_get_winner_ids_not_completed() {
    let g = Game::new(1, PIDS, 500);
    assert_eq!(g.get_winner_ids(), Err(GetError::GameNotCompleted));
}

#[test]
fn test_get_winner_ids_team_a_wins() {
    let pids = PIDS;
    let mut g = Game::new(1, pids, 500);
    g.set_state(State::Completed);
    g.scoring.team_a.cumulative_points = 500;
    g.scoring.team_b.cumulative_points = 100;
    let (w1, w2) = g.get_winner_ids().unwrap();
    assert_eq!(w1, pids[0]);
    assert_eq!(w2, pids[2]);
}

#[test]
fn test_get_winner_ids_team_b_wins() {
    let pids = PIDS;
    let mut g = Game::new(1, pids, 500);
    g.set_state(State::Completed);
    g.scoring.team_a.cumulative_points = 100;
    g.scoring.team_b.cumulative_points = 500;
    let (w1, w2) = g.get_winner_ids().unwrap();
    assert_eq!(w1, pids[1]);
    assert_eq!(w2, pids[3]);
}

#[test]
fn test_get_winner_ids_tie_returns_error() {
    let mut g = Game::new(1, PIDS, 500);
    g.set_state(State::Completed);
    g.scoring.team_a.cumulative_points = 500;
    g.scoring.team_b.cumulative_points = 500;
    assert_eq!(g.get_winner_ids(), Err(GetError::GameNotCompleted));
}

#[test]
fn test_get_legal_cards_not_in_trick() {
    let (g, _) = make_started_game();
    assert_eq!(g.get_legal_cards(), Err(GetError::Unknown));
}

#[test]
fn test_get_legal_cards_first_card_all_legal() {
    let (g, _) = make_game_in_trick_state();
    let legal = g.get_legal_cards().unwrap();
    let hand = g.get_current_hand().unwrap();
    assert_eq!(legal.len(), hand.len());
}

#[test]
fn test_get_legal_cards_must_follow_suit() {
    let (mut g, _) = make_game_in_trick_state();
    let hand = g.get_current_hand().unwrap().clone();
    let first_card = hand[0].clone();
    let leading_suit = first_card.suit;
    g.play(GameTransition::Card(first_card)).unwrap();
    let legal = g.get_legal_cards().unwrap();
    let hand_b = g.get_current_hand().unwrap();
    let has_leading = hand_b.iter().any(|c| c.suit == leading_suit);
    if has_leading {
        assert!(legal.iter().all(|c| c.suit == leading_suit));
    } else {
        assert_eq!(legal.len(), hand_b.len());
    }
}

#[test]
fn test_get_current_player_index_num() {
    let (g, _) = make_started_game();
    assert_eq!(g.get_current_player_index_num(), 0);
}

#[test]
fn test_is_first_round_betting() {
    let (g, _) = make_started_game();
    assert!(g.is_first_round_betting());
}

#[test]
fn test_is_first_round_betting_false_in_trick() {
    let (g, _) = make_game_in_trick_state();
    assert!(!g.is_first_round_betting());
}

#[test]
fn test_set_state() {
    let mut g = Game::new(1, PIDS, 500);
    assert_eq!(g.get_state(), State::NotStarted);
    g.set_state(State::Aborted);
    assert_eq!(g.get_state(), State::Aborted);
}

#[test]
fn test_bet_on_completed_game() {
    let mut g = Game::new(1, PIDS, 500);
    g.set_state(State::Completed);
    assert_eq!(g.play(GameTransition::Bet(3)), Err(TransitionError::CompletedGame));
}

#[test]
fn test_card_on_completed_game() {
    let mut g = Game::new(1, PIDS, 500);
    g.set_state(State::Completed);
    let card = Card { suit: Suit::Heart, rank: Rank::Ace };
    assert_eq!(g.play(GameTransition::Card(card)), Err(TransitionError::CompletedGame));
}

#[test]
fn test_bet_in_trick_stage() {
    let (mut g, _) = make_game_in_trick_state();
    assert_eq!(g.play(GameTransition::Bet(3)), Err(TransitionError::BetInTrickStage));
}

#[test]
fn test_card_not_in_hand() {
    let (mut g, _) = make_game_in_trick_state();
    let fake_card = Card { suit: Suit::Blank, rank: Rank::Blank };
    assert_eq!(g.play(GameTransition::Card(fake_card)), Err(TransitionError::CardNotInHand));
}

#[test]
fn test_card_incorrect_suit() {
    let (mut g, _) = make_game_in_trick_state();
    let hand = g.get_current_hand().unwrap().clone();
    let first_card = hand[0].clone();
    let leading_suit = first_card.suit;
    g.play(GameTransition::Card(first_card)).unwrap();
    let hand_b = g.get_current_hand().unwrap().clone();
    let has_leading = hand_b.iter().any(|c| c.suit == leading_suit);
    if has_leading {
        if let Some(wrong_card) = hand_b.iter().find(|c| c.suit != leading_suit) {
            assert_eq!(g.play(GameTransition::Card(wrong_card.clone())), Err(TransitionError::CardIncorrectSuit));
        }
    }
}

#[test]
fn test_get_hand_by_player_id_invalid() {
    let (g, _) = make_started_game();
    assert_eq!(g.get_hand_by_player_id(999), Err(GetError::InvalidUuid));
}

#[test]
fn test_get_hand_by_player_id_all_players() {
    let (g, pids) = make_started_game();
    for pid in &pids {
        let hand = g.get_hand_by_player_id(*pid).unwrap();
        assert_eq!(hand.len(), 13);
    }
}

#[test]
fn test_get_player_names_default_none() {
    let pids = PIDS;
    let g = Game::new(1, pids, 500);
    let names = g.get_player_names();
    for (id, name) in &names {
        assert!(pids.contains(id));
        assert!(name.is_none());
    }
}

#[test]
fn test_set_player_name_invalid_id() {
    let mut g = Game::new(1, PIDS, 500);
    assert_eq!(g.set_player_name(999, Some("Test".to_string())), Err(GetError::InvalidUuid));
}

#[test]
fn set_player_name_for_seat() {
    let mut g = Game::new(1, PIDS, 500);
    assert_eq!(g.set_player_name(33, Some("Carol".to_string())), Ok(()));
    assert_eq!(g.get_player_names()[2], (33, Some("Carol".to_string())));
}

#[test]
fn test_score_getters_not_started() {
    let g = Game::new(1, PIDS, 500);
    assert_eq!(g.get_team_a_score(), Err(GetError::GameNotStarted));
    assert_eq!(g.get_team_b_score(), Err(GetError::GameNotStarted));
    assert_eq!(g.get_team_a_bags(), Err(GetError::GameNotStarted));
    assert_eq!(g.get_team_b_bags(), Err(GetError::GameNotStarted));
}

#[test]
fn test_game_state_getters_when_not_started() {
    let g = Game::new(1, PIDS, 500);
    assert_eq!(g.get_team_a_score(), Err(GetError::GameNotStarted));
    assert_eq!(g.get_team_b_score(), Err(GetError::GameNotStarted));
    assert_eq!(g.get_team_a_bags(), Err(GetError::GameNotStarted));
    assert_eq!(g.get_team_b_bags(), Err(GetError::GameNotStarted));
    assert_eq!(g.get_current_player_id(), Err(GetError::GameNotStarted));
    assert_eq!(g.get_current_hand(), Err(GetError::GameNotStarted));
    assert_eq!(g.get_leading_suit(), Err(GetError::GameNotStarted));
    assert_eq!(g.get_current_trick_cards(), Err(GetError::GameNotStarted));
}

#[test]
fn test_invalid_uuid_lookup() {
    let mut g = Game::new(1, PIDS, 500);
    g.play(GameTransition::Start).unwrap();
    assert_eq!(g.get_hand_by_player_id(12345), Err(GetError::InvalidUuid));
}

#[test]
fn test_play_card_not_in_hand() {
    let (mut g, _) = make_game_in_trick_state();
    let invalid_card = Card { suit: Suit::Spade, rank: Rank::Ace };
    let hand = g.get_current_hand().unwrap().clone();
    if !hand.contains(&invalid_card) {
        assert_eq!(g.play(GameTransition::Card(invalid_card)), Err(TransitionError::CardNotInHand));
    }
}

#[test]
fn test_play_wrong_suit() {
    let (mut g, _) = make_game_in_trick_state();
    let hand = g.get_current_hand().unwrap().clone();
    let first_card = hand[0].clone();
    g.play(GameTransition::Card(first_card.clone())).unwrap();
    let hand2 = g.get_current_hand().unwrap().clone();
    if let Some(wrong_card) = hand2.iter().find(|c| c.suit != first_card.suit) {
        if hand2.iter().any(|c| c.suit == first_card.suit) {
            let result = g.play(GameTransition::Card(wrong_card.clone()));
            assert_eq!(result, Err(TransitionError::CardIncorrectSuit));
        }
    }
}

#[test]
fn test_nil_betting() {
    let (mut g, _) = make_started_game();
    assert_eq!(g.play(GameTransition::Bet(0)), Ok(TransitionSuccess::Bet));
    g.play(GameTransition::Bet(3)).unwrap();
    g.play(GameTransition::Bet(0)).unwrap();
    g.play(GameTransition::Bet(3)).unwrap();
    assert_eq!(g.scoring.bets_placed[0], [0, 3, 0, 3]);
}

#[test]
fn test_get_winner_before_completion() {
    let mut g = Game::new(1, PIDS, 500);
    assert_eq!(g.get_winner_ids(), Err(GetError::GameNotCompleted));
    g.play(GameTransition::Start).unwrap();
    assert_eq!(g.get_winner_ids(), Err(GetError::GameNotCompleted));
}

#[test]
fn test_multiple_starts() {
    let mut g = Game::new(1, PIDS, 500);
    assert_eq!(g.play(GameTransition::Start), Ok(TransitionSuccess::Start));
    assert_eq!(g.play(GameTransition::Start), Err(TransitionError::AlreadyStarted));
    assert_eq!(g.play(GameTransition::Start), Err(TransitionError::AlreadyStarted));
}

#[test]
fn test_state_transitions() {
    let mut g = Game::new(1, PIDS, 500);
    assert_eq!(g.get_state(), State::NotStarted);
    g.play(GameTransition::Start).unwrap();
    assert_eq!(g.get_state(), State::Betting(0));
    g.play(GameTransition::Bet(3)).unwrap();
    assert_eq!(g.get_state(), State::Betting(1));
    g.play(GameTransition::Bet(3)).unwrap();
    assert_eq!(g.get_state(), State::Betting(2));
    g.play(GameTransition::Bet(3)).unwrap();
    assert_eq!(g.get_state(), State::Betting(3));
    g.play(GameTransition::Bet(3)).unwrap();
    assert_eq!(g.get_state(), State::Trick(0));
}

#[test]
fn test_valid_card_sequence() {
    let (mut g, _) = make_game_in_trick_state();
    for _ in 0..4 {
        let hand = g.get_current_hand().unwrap().clone();
        let leading_suit = g.get_leading_suit().ok();
        let card_to_play = if let Some(suit) = leading_suit {
            hand.iter().find(|c| c.suit == suit).or_else(|| hand.first()).unwrap().clone()
        } else {
            hand[0].clone()
        };
        g.play(GameTransition::Card(card_to_play)).unwrap();
    }
}

fn sorted(h: &[Card]) -> bool {
    let key = |c: &Card| (c.suit as u8, c.rank as u8);
    h.windows(2).all(|w| key(&w[0]) <= key(&w[1]))
}

#[test]
fn start_deals_sorted_hands_of_thirteen() {
    let (g, pids) = make_started_game();
    let mut all: Vec<Card> = Vec::new();
    for pid in &pids {
        let h = g.get_hand_by_player_id(*pid).unwrap();
        assert_eq!(h.len(), 13);
        assert!(sorted(h));
        all.extend(h.iter().cloned());
    }
    for c in &all {
        assert_eq!(all.iter().filter(|x| *x == c).count(), 1);
    }
    assert_eq!(g.get_current_player_id(), Ok(pids[0]));
}

/// Plays one full round with every seat bidding `bid`, always the first legal card;
/// returns how many tricks each partnership took.
fn play_round(g: &mut Game, bid: i32) -> (i32, i32) {
    for _ in 0..4 {
        g.play(GameTransition::Bet(bid)).unwrap();
    }
    let (mut a, mut b) = (0, 0);
    for t in 0..13 {
        for k in 0..4 {
            let c = first_legal(g);
            let r = g.play(GameTransition::Card(c)).unwrap();
            if k < 3 {
                assert_eq!(r, TransitionSuccess::PlayCard);
            } else {
                assert!(r == TransitionSuccess::Trick || r == TransitionSuccess::GameOver);
            }
        }
        if t < 12 {
            // The winner of the trick leads the next one.
            let w = g.get_current_player_index_num();
            if w % 2 == 0 { a += 1 } else { b += 1 }
        }
    }
    // The last trick's winner is recovered from the totals.
    (a, b)
}

#[test]
fn full_round_scores_by_contract() {
    let (mut g, _) = make_started_game();
    let (a12, b12) = play_round(&mut g, 3);
    assert_eq!(a12 + b12, 12);
    let a = g.get_team_a_score().unwrap();
    let b = g.get_team_b_score().unwrap();
    let score = |t: i32| if t >= 6 { 60 + (t - 6) } else { -60 };
    // The thirteenth trick went to one of the two partnerships.
    assert!((a == score(a12 + 1) && b == score(b12)) || (a == score(a12) && b == score(b12 + 1)));
    assert_eq!(g.get_state(), State::Betting(0));
    assert_eq!(g.scoring.round, 1);
    for i in 0..4 {
        assert_eq!(g.get_hand(i).len(), 13);
    }
}

#[test]
fn rounds_continue_until_game_over() {
    let mut g = Game::new(1, PIDS, 100);
    g.play(GameTransition::Start).unwrap();
    let mut rounds = 0;
    while g.get_state() != State::Completed && rounds < 500 {
        play_round(&mut g, 3);
        rounds += 1;
    }
    assert_eq!(g.get_state(), State::Completed);
    assert!(g.get_winner_ids().is_ok());
    assert_eq!(g.play(GameTransition::Bet(1)), Err(TransitionError::CompletedGame));
}

#[test]
fn aborted_table_refuses_moves() {
    let (mut g, _) = make_started_game();
    g.abort();
    assert_eq!(g.get_state(), State::Aborted);
    assert_eq!(g.play(GameTransition::Bet(1)), Err(TransitionError::CompletedGame));
}
