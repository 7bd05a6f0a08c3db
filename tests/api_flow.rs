use spades::cards::{Card, Rank, Suit};
use spades::game::Game;
use spades::outcomes::{GameTransition, State, TransitionError, TransitionSuccess};

#[test]
fn api_main_unit() {
    let mut g = Game::new(1, [11, 22, 33, 44], 500);
    assert_eq!(g.play(GameTransition::Card(Card { suit: Suit::Heart, rank: Rank::Five })), Err(TransitionError::NotStarted));
    assert_eq!(g.play(GameTransition::Bet(3)), Err(TransitionError::NotStarted));
    assert_eq!(g.play(GameTransition::Start), Ok(TransitionSuccess::Start));
    assert_eq!(g.play(GameTransition::Start), Err(TransitionError::AlreadyStarted));
    let hand_a = vec![
        Card { suit: Suit::Club, rank: Rank::Five },
        Card { suit: Suit::Club, rank: Rank::Ace },
        Card { suit: Suit::Diamond, rank: Rank::Two },
        Card { suit: Suit::Diamond, rank: Rank::Three },
        Card { suit: Suit::Diamond, rank: Rank::King },
        Card { suit: Suit::Diamond, rank: Rank::Ace },
        Card { suit: Suit::Heart, rank: Rank::Five },
        Card { suit: Suit::Heart, rank: Rank::Nine },
        Card { suit: Suit::Heart, rank: Rank::Jack },
        Card { suit: Suit::Heart, rank: Rank::King },
        Card { suit: Suit::Heart, rank: Rank::Six },
        Card { suit: Suit::Spade, rank: Rank::Six },
        Card { suit: Suit::Spade, rank: Rank::Ace },
    ];
    let hand_b = vec![
        Card {suit: Suit::Club, rank: Rank::Four},
        Card {suit: Suit::Club, rank: Rank::Six},
        Card {suit: Suit::Club, rank: Rank::Nine},
        Card {suit: Suit::Club, rank: Rank::Jack},
        Card {suit: Suit::Diamond, rank: Rank::Seven},
        Card {suit: Suit::Heart, rank: Rank::Four},
        Card {suit: Suit::Heart, rank: Rank::Eight},
        Card {suit: Suit::Heart,rank: Rank::Queen},
        Card {suit: Suit::Spade, rank: Rank::Two},
        Card {suit: Suit::Spade, rank: Rank::Five},
        Card {suit: Suit::Spade, rank: Rank::Eight},
        Card {suit: Suit::Spade, rank: Rank::Ten},
        Card {suit: Suit::Spade, rank: Rank::King},
    ];
    let hand_c = vec![
        Card {suit: Suit::Club, rank: Rank::Two},
        Card {suit: Suit::Club, rank: Rank::Seven},
        Card {suit: Suit::Club, rank: Rank::Ten},
        Card {suit: Suit::Diamond, rank: Rank::Five},
        Card {suit: Suit::Diamond, rank: Rank::Eight},
        Card {suit: Suit::Diamond, rank: Rank::Nine},
        Card {suit: Suit::Diamond, rank: Rank::Jack},
        Card {suit: Suit::Diamond, rank: Rank::Queen},
        Card {suit: Suit::Heart, rank: Rank::Three},
        Card {suit: Suit::Heart, rank: Rank::Seven},
        Card {suit: Suit::Spade, rank: Rank::Nine},
        Card {suit: Suit::Spade, rank: Rank::Jack},
        Card {suit: Suit::Spade, rank: Rank::Queen},
    ];
    let hand_d = vec![
        Card {suit: Suit::Club, rank: Rank::Three },
        Card {suit: Suit::Club, rank: Rank::Eight },
        Card {suit: Suit::Club, rank: Rank::Queen },
        Card {suit: Suit::Club, rank: Rank::King },
        Card {suit: Suit::Diamond, rank: Rank::Four },
        Card {suit: Suit::Diamond, rank: Rank::Six },
        Card {suit: Suit::Diamond, rank: Rank::Ten },
        Card {suit: Suit::Heart, rank: Rank::Two },
        Card {suit: Suit::Heart, rank: Rank::Ten },
        Card {suit: Suit::Heart, rank: Rank::Ace },
        Card {suit: Suit::Spade, rank: Rank::Three },
        Card {suit: Suit::Spade, rank: Rank::Four },
        Card {suit: Suit::Spade, rank: Rank::Seven },
    ];

    g.hand_a = hand_a;
    g.hand_b = hand_b;
    g.hand_c = hand_c;
    g.hand_d = hand_d;
    assert_eq!(g.state, State::Betting(0));
    assert_eq!(g.play(GameTransition::Card(Card { suit: Suit::Heart, rank: Rank::Five })), Err(TransitionError::CardInBettingStage));
    assert_eq!(g.play(GameTransition::Start), Err(TransitionError::AlreadyStarted));
    assert_eq!(g.play(GameTransition::Bet(3)), Ok(TransitionSuccess::Bet));
    assert_eq!(g.play(GameTransition::Card(Card { suit: Suit::Heart, rank: Rank::Five })), Err(TransitionError::CardInBettingStage));
    assert_eq!(g.play(GameTransition::Bet(3)), Ok(TransitionSuccess::Bet));
    assert_eq!(g.play(GameTransition::Card(Card { suit: Suit::Heart, rank: Rank::Five })), Err(TransitionError::CardInBettingStage));
    assert_eq!(g.play(GameTransition::Bet(3)), Ok(TransitionSuccess::Bet));
    assert_eq!(g.play(GameTransition::Card(Card { suit: Suit::Heart, rank: Rank::Five })), Err(TransitionError::CardInBettingStage));
    assert_eq!(g.play(GameTransition::Bet(3)), Ok(TransitionSuccess::BetComplete));
}

#[test]
fn main() {
    let mut g = Game::new(1, [11, 22, 33, 44], 500);
    g.play(GameTransition::Start).unwrap();
    println!("{:#?}", g);
    while g.get_state() != State::Completed {
        if let State::Trick(_player_index) = g.get_state() {
            assert!(g.get_current_hand().is_ok());
            let hand = g.get_current_hand().ok().unwrap().clone();
            let x = get_valid_card_index(g.get_leading_suit().unwrap(), &hand);
            g.play(GameTransition::Card(hand[x].clone())).unwrap();
        } else {
            g.play(GameTransition::Bet(3)).unwrap();
        }
    }
    assert_eq!(g.get_state(), State::Completed);
}

fn get_valid_card_index(leading_suit: Suit, hand: &Vec<Card>) -> usize {
    if hand.iter().any(|x| x.suit == leading_suit) && leading_suit != Suit::Blank {
        hand.iter().position(|x| x.suit == leading_suit).unwrap()
    } else {
        0
    }
}
