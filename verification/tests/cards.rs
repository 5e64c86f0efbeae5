use ultimate_holdem::{build_complete_deck, build_face_cards, build_number_cards, Card};

const SUITS: [&str; 4] = ["Spades", "Hearts", "Clubs", "Diamonds"];

fn count_of(cards: &[Card], suit: &str, value: &str) -> usize {
    cards
        .iter()
        .filter(|c| c.get_suit() == suit && c.get_value() == value)
        .count()
}

#[test]
fn number_cards_one_per_suit_and_rank() {
    let cards = build_number_cards();
    assert_eq!(cards.len(), 32);
    for suit in SUITS.iter() {
        for rank in ["2", "3", "4", "5", "6", "7", "8", "9"].iter() {
            assert_eq!(count_of(&cards, suit, rank), 1);
        }
        assert_eq!(count_of(&cards, suit, "10"), 0);
    }
}

#[test]
fn face_cards_two_kings_one_ace_one_queen_no_jack() {
    let cards = build_face_cards();
    assert_eq!(cards.len(), 16);
    for suit in SUITS.iter() {
        assert_eq!(count_of(&cards, suit, "King"), 2);
        assert_eq!(count_of(&cards, suit, "Ace"), 1);
        assert_eq!(count_of(&cards, suit, "Queen"), 1);
        assert_eq!(count_of(&cards, suit, "Jack"), 0);
    }
}

#[test]
fn complete_deck_has_48_cards() {
    let cards = build_complete_deck();
    assert_eq!(cards.len(), 48);
    assert_eq!(cards[0].get_suit(), "Spades");
    assert_eq!(cards[0].get_value(), "2");
    assert_eq!(cards[32].get_suit(), "Spades");
    assert_eq!(cards[32].get_value(), "Ace");
}

#[test]
fn complete_deck_is_number_then_face() {
    let cards = build_complete_deck();
    let numbers = build_number_cards();
    let faces = build_face_cards();
    for (c, n) in cards.iter().take(32).zip(numbers.iter()) {
        assert_eq!(c.get_suit(), n.get_suit());
        assert_eq!(c.get_value(), n.get_value());
    }
    for (c, f) in cards.iter().skip(32).zip(faces.iter()) {
        assert_eq!(c.get_suit(), f.get_suit());
        assert_eq!(c.get_value(), f.get_value());
    }
}

#[test]
fn complete_deck_repeated_calls_agree() {
    let first = build_complete_deck();
    let second = build_complete_deck();
    assert_eq!(first.len(), second.len());
    for (a, b) in first.iter().zip(second.iter()) {
        assert_eq!(a.get_suit(), b.get_suit());
        assert_eq!(a.get_value(), b.get_value());
    }
}

#[test]
fn image_path_ace_of_spades() {
    let card = Card::new("Spades".to_string(), "Ace".to_string());
    assert_eq!(card.get_image_path(), "card_images/ace_spades.jpg");
}

#[test]
fn image_path_ten_of_hearts() {
    let card = Card::new("Hearts".to_string(), "10".to_string());
    assert_eq!(card.get_image_path(), "card_images/ten_hearts.jpg");
}

#[test]
fn image_path_every_built_card() {
    let cards = build_complete_deck();
    for card in cards.iter() {
        let path = card.get_image_path();
        let expected_suit = card.get_suit().to_lowercase();
        assert!(path.starts_with("card_images/"));
        assert!(path.ends_with(&format!("_{}.jpg", expected_suit)));
    }
}

#[test]
fn image_path_unknown_value_keeps_empty_segment() {
    let card = Card::new("Spades".to_string(), "Joker".to_string());
    assert_eq!(card.get_image_path(), "card_images/_spades.jpg");
}

#[test]
fn card_getters_and_repr() {
    let card = Card::new("Clubs".to_string(), "Queen".to_string());
    assert_eq!(card.get_suit(), "Clubs");
    assert_eq!(card.get_value(), "Queen");
    assert_eq!(card.__repr__(), "Suit: Clubs, Value: Queen");
}

#[test]
fn card_clone_keeps_fields() {
    let card = Card::new("Diamonds".to_string(), "7".to_string());
    let copy = card.clone();
    assert_eq!(copy.get_suit(), "Diamonds");
    assert_eq!(copy.get_value(), "7");
}
