//! Gameplay-data core of an Ultimate Texas Hold'em style card game:
//! deck construction, random dealing without replacement, hand-progression
//! state, and the wagering ledger attached to a player.

pub mod card;
pub mod deck;
pub mod player;
pub mod state;
pub mod text;
pub mod wager;

pub use card::Card;
pub use card::build_complete_deck;
pub use card::build_face_cards;
pub use card::build_number_cards;
pub use deck::Deck;
pub use deck::DeckError;
pub use player::Player;
pub use state::State;
pub use wager::Wager;
