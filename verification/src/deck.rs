//! The draw pool and random dealing without replacement.

use vstd::prelude::*;
use crate::card::Card;

verus! {

/// Why a deal failed.
#[derive(Clone, Copy, Debug, PartialEq, Eq, Structural)]
pub enum DeckError {
    /// The deck was empty: there is no card left to deal.
    DeckExhausted,
}

/// An ordered draw pool of cards. The order is the insertion order of the
/// builder that produced it and carries no gameplay meaning beyond being the
/// pool dealt from.
#[derive(Debug)]
pub struct Deck {
    pub deck: Vec<Card>,
}

/// Relies on `rand::random_range` over `0..n` with the thread-local
/// generator: it returns a value of the range, so one in `[0, n)`, and
/// panics only on an empty range, which `n > 0` rules out. Nothing is
/// assumed about which value comes back.
#[verifier::external_body]
fn random_index(n: usize) -> (r: usize)
    requires
        n > 0,
    ensures
        r < n,
{
    rand::random_range(0..n)
}

impl Clone for Deck {
    /// A clone holds the same cards in the same order.
    fn clone(&self) -> (d: Self)
        ensures
            d.deck@ == self.deck@,
    {
        let deck = self.deck.clone();
        proof {
            assert(forall|i: int|
                0 <= i < self.deck@.len() ==> cloned::<Card>(self.deck@[i], #[trigger] deck@[i]));
            assert(deck@ =~= self.deck@);
        }
        Deck { deck }
    }
}

impl Deck {
    /// Wrap an already built card vector as a draw pool.
    pub fn new(deck_: Vec<Card>) -> (d: Deck)
        ensures
            d.deck@ == deck_@,
    {
        Deck { deck: deck_ }
    }

    /// How many cards are left in the pool.
    pub fn len(&self) -> (n: usize)
        ensures
            n == self.deck@.len(),
    {
        self.deck.len()
    }

    /// Deal one card at a uniformly random position of the pool.
    ///
    /// On a non-empty deck the result is `Ok((card, rest))`: the dealt card
    /// sat at some position of the deck, and `rest` is the deck with exactly
    /// that one position removed, the others in their old relative order; so
    /// dealing is sampling without replacement, and the pool's multiset of
    /// cards splits into the dealt card plus `rest`. The deck value itself is
    /// left untouched: callers continue with the returned `rest`.
    ///
    /// On an empty deck the deal fails with [`DeckError::DeckExhausted`].
    pub fn deal_card(&self) -> (r: Result<(Card, Vec<Card>), DeckError>)
        ensures
            self.deck@.len() == 0 <==> r is Err,
            r is Err ==> r->Err_0 == DeckError::DeckExhausted,
            r is Ok ==> exists|idx: int|
                #![trigger self.deck@.remove(idx)]
                {
                    &&& 0 <= idx < self.deck@.len()
                    &&& r->Ok_0.0 == self.deck@[idx]
                    &&& r->Ok_0.1@ == self.deck@.remove(idx)
                },
            r is Ok ==> self.deck@.contains(r->Ok_0.0),
            r is Ok ==> r->Ok_0.1@.len() == self.deck@.len() - 1,
            r is Ok ==> r->Ok_0.1@.to_multiset().insert(r->Ok_0.0) == self.deck@.to_multiset(),
    {
        if self.deck.len() == 0 {
            return Err(DeckError::DeckExhausted);
        }
        let mut deck = self.deck.clone();
        proof {
            assert(forall|i: int|
                0 <= i < self.deck@.len() ==> cloned::<Card>(self.deck@[i], #[trigger] deck@[i]));
            assert(deck@ =~= self.deck@);
        }
        let index = random_index(deck.len());
        let card = deck.remove(index);
        proof {
            lemma_deal_without_replacement(self.deck@, index as int);
            assert(self.deck@.contains(card)) by {
                assert(self.deck@[index as int] == card);
            }
        }
        Ok((card, deck))
    }
}

/// Dealing is sampling without replacement: removing the card at one position
/// of the pool takes exactly one copy of that card out of the pool's
/// multiset and leaves every other card in place. Dealing repeatedly until
/// the pool is empty therefore hands out exactly the pool's cards, each as
/// often as the pool held it, with no repeats and no omissions.
pub proof fn lemma_deal_without_replacement(s: Seq<Card>, idx: int)
    requires
        0 <= idx < s.len(),
    ensures
        s.remove(idx).len() == s.len() - 1,
        s.remove(idx).to_multiset().insert(s[idx]) == s.to_multiset(),
{
    broadcast use vstd::seq_lib::group_to_multiset_ensures;

    assert(s.contains(s[idx]));
    assert(s.remove(idx).to_multiset() =~= s.to_multiset().remove(s[idx]));
    assert(s.to_multiset().count(s[idx]) > 0);
    assert(s.remove(idx).to_multiset().insert(s[idx]) =~= s.to_multiset());
}

} // verus!
