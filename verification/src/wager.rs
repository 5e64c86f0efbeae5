//! The wagering ledger: four independent bet slots and a running balance.

use vstd::prelude::*;

verus! {

/// A player's bet ledger. Each of the four bet kinds — ante, blinds, play,
/// trips — carries an "is this bet active" flag and an amount. Amounts are
/// unsigned, so a negative bet is rejected at the representation level
/// rather than by a runtime check; the overall balance is signed and may go
/// negative when the player owes more than was deposited.
#[derive(Clone, Copy, Debug)]
pub struct Wager {
    pub ante_play: bool,
    pub ante_amt: u32,
    pub blinds_play: bool,
    pub blinds_amt: u32,
    pub play_wager: bool,
    pub play_amt: u32,
    pub trips_play: bool,
    pub trips_amt: u32,
    pub balance: i32,
}

impl Wager {
    /// Build a ledger from its nine attributes; every field holds exactly
    /// the argument it was given.
    pub fn new(
        ante_play_: bool,
        ante_amt_: u32,
        blinds_play_: bool,
        blinds_amt_: u32,
        play_wager_: bool,
        play_amt_: u32,
        trips_play_: bool,
        trips_amt_: u32,
        balance_: i32,
    ) -> (w: Wager)
        ensures
            w.ante_play == ante_play_,
            w.ante_amt == ante_amt_,
            w.blinds_play == blinds_play_,
            w.blinds_amt == blinds_amt_,
            w.play_wager == play_wager_,
            w.play_amt == play_amt_,
            w.trips_play == trips_play_,
            w.trips_amt == trips_amt_,
            w.balance == balance_,
    {
        Wager {
            ante_play: ante_play_,
            ante_amt: ante_amt_,
            blinds_play: blinds_play_,
            blinds_amt: blinds_amt_,
            play_wager: play_wager_,
            play_amt: play_amt_,
            trips_play: trips_play_,
            trips_amt: trips_amt_,
            balance: balance_,
        }
    }
}

} // verus!
