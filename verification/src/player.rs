//! A player: a name, the two hole cards dealt to them, and their wagers.

use vstd::prelude::*;
use vstd::string::StringExecFns;
use crate::card::Card;
use crate::wager::Wager;

verus! {

/// A player in a hand. Owns its two hole cards, dealt from the shared deck,
/// and its wagering ledger.
#[derive(Debug)]
pub struct Player {
    pub name: String,
    pub first_card: Card,
    pub second_card: Card,
    pub wagers: Wager,
}

impl Clone for Player {
    /// A clone keeps the name, both hole cards and the wagers.
    fn clone(&self) -> (p: Self)
        ensures
            p == *self,
    {
        Player {
            name: self.name.clone(),
            first_card: self.first_card.clone(),
            second_card: self.second_card.clone(),
            wagers: self.wagers,
        }
    }
}

impl Player {
    /// The player's printed form: the name followed by each hole card's own
    /// representation.
    pub open spec fn spec_repr(self) -> Seq<char> {
        "Player Name: "@ + self.name@ + ", First Card: "@ + self.first_card.spec_repr()
            + ", Second Card: "@ + self.second_card.spec_repr()
    }

    /// Build a player from a name, two hole cards and a wager ledger; every
    /// field holds exactly the argument it was given.
    pub fn new(name_: String, first: Card, second: Card, wagers_: Wager) -> (p: Player)
        ensures
            p.name@ == name_@,
            p.first_card == first,
            p.second_card == second,
            p.wagers == wagers_,
    {
        Player { name: name_, first_card: first, second_card: second, wagers: wagers_ }
    }

    /// The player's human-readable representation: contains the player's
    /// name and the description of both hole cards.
    pub fn __repr__(&self) -> (r: String)
        ensures
            r@ == self.spec_repr(),
    {
        let first_repr = self.first_card.__repr__();
        let second_repr = self.second_card.__repr__();
        let mut r = String::from_str("Player Name: ");
        r.append(self.name.as_str());
        r.append(", First Card: ");
        r.append(first_repr.as_str());
        r.append(", Second Card: ");
        r.append(second_repr.as_str());
        r
    }
}

} // verus!
