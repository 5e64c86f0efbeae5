use ultimate_holdem::{build_complete_deck, Deck, Player, State, Wager};

#[test]
fn state_starts_pre_flop_only() {
    let state = State::new();
    assert!(state.pre_flop());
    assert!(!state.flop());
    assert!(!state.post_flop());
}

#[test]
fn play_flop_leaves_only_flop_true() {
    let state = State::new();
    let state = state.play_flop();
    assert!(!state.pre_flop());
    assert!(state.flop());
    assert!(!state.post_flop());
}

#[test]
fn play_postflop_leaves_only_post_flop_true() {
    let state = State::new();
    let state = state.play_flop();
    let state = state.play_postflop();
    assert!(!state.pre_flop());
    assert!(!state.flop());
    assert!(state.post_flop());
}

#[test]
fn transitions_reset_to_target_from_any_state() {
    // The transitions have idempotent target-state semantics: whatever the
    // current phase, each lands on its own target.
    let state = State::new();
    let skipped = state.play_postflop();
    assert!(skipped.post_flop());
    let back = skipped.play_flop();
    assert!(back.flop() && !back.pre_flop() && !back.post_flop());
    let again = back.play_flop();
    assert!(again.flop());
    assert_eq!(again, State::Flop);
}

#[test]
fn wager_preserves_fields() {
    let wager = Wager::new(true, 5, false, 0, false, 0, false, 0, -20);
    assert!(wager.ante_play);
    assert_eq!(wager.ante_amt, 5);
    assert!(!wager.blinds_play);
    assert_eq!(wager.blinds_amt, 0);
    assert!(!wager.play_wager);
    assert_eq!(wager.play_amt, 0);
    assert!(!wager.trips_play);
    assert_eq!(wager.trips_amt, 0);
    assert_eq!(wager.balance, -20);
}

#[test]
fn wager_all_slots_read_back() {
    let wager = Wager::new(true, 10, true, 20, true, 30, true, 40, 125);
    assert_eq!(
        (wager.ante_amt, wager.blinds_amt, wager.play_amt, wager.trips_amt),
        (10, 20, 30, 40)
    );
    assert!(wager.ante_play && wager.blinds_play && wager.play_wager && wager.trips_play);
    assert_eq!(wager.balance, 125);
}

#[test]
fn player_holds_name_cards_and_wagers() {
    let cards = build_complete_deck();
    let deck = Deck::new(cards);
    let (first, rest) = deck.deal_card().unwrap();
    let (second, _rest) = Deck::new(rest).deal_card().unwrap();
    let wager = Wager::new(false, 0, false, 0, false, 0, false, 0, 0);
    let player = Player::new("Alice".to_string(), first, second, wager);
    assert_eq!(player.name, "Alice");
    assert_eq!(player.wagers.balance, 0);
    assert!(!player.wagers.ante_play);
}

#[test]
fn full_hand_scenario_repr_contains_name_and_cards() {
    let cards = build_complete_deck();
    assert_eq!(cards.len(), 48);
    let deck = Deck::new(cards);
    let (first, rest) = deck.deal_card().unwrap();
    assert_eq!(rest.len(), 47);
    let (second, rest) = Deck::new(rest).deal_card().unwrap();
    assert_eq!(rest.len(), 46);
    let first_repr = first.__repr__();
    let second_repr = second.__repr__();
    let wager = Wager::new(false, 0, false, 0, false, 0, false, 0, 0);
    let player = Player::new("Alice".to_string(), first, second, wager);
    let repr = player.__repr__();
    assert!(repr.contains("Alice"));
    assert!(repr.contains(&first_repr));
    assert!(repr.contains(&second_repr));
    assert_eq!(
        repr,
        format!(
            "Player Name: Alice, First Card: {}, Second Card: {}",
            first_repr, second_repr
        )
    );
}

#[test]
fn player_repr_exact_form() {
    let first = ultimate_holdem::Card::new("Spades".to_string(), "Ace".to_string());
    let second = ultimate_holdem::Card::new("Hearts".to_string(), "9".to_string());
    let wager = Wager::new(false, 0, false, 0, false, 0, false, 0, 0);
    let player = Player::new("Bob".to_string(), first, second, wager);
    assert_eq!(
        player.__repr__(),
        "Player Name: Bob, First Card: Suit: Spades, Value: Ace, Second Card: Suit: Hearts, Value: 9"
    );
}
