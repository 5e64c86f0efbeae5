//! Hand-progression state: the betting-round phase of a single hand.

use vstd::prelude::*;

verus! {

/// The betting-round phase of a hand. Exactly one phase holds at a time,
/// which the tagged representation guarantees by construction.
///
/// A hand starts in `PreFlop`; `play_flop` and `play_postflop` produce the
/// `Flop` and `PostFlop` phases. The transitions are pure: each returns a new
/// state value, and the caller replaces its own copy with the result.
#[derive(Clone, Copy, PartialEq, Eq, Structural, Debug)]
pub enum State {
    PreFlop,
    Flop,
    PostFlop,
}

impl State {
    /// True when the hand is before the flop.
    pub open spec fn spec_pre_flop(self) -> bool {
        self is PreFlop
    }

    /// True when the hand is on the flop.
    pub open spec fn spec_flop(self) -> bool {
        self is Flop
    }

    /// True when the hand is past the flop.
    pub open spec fn spec_post_flop(self) -> bool {
        self is PostFlop
    }

    /// A new hand starts before the flop.
    pub fn new() -> (s: State)
        ensures
            s == State::PreFlop,
    {
        State::PreFlop
    }

    pub fn pre_flop(&self) -> (b: bool)
        ensures
            b == self.spec_pre_flop(),
    {
        matches!(self, State::PreFlop)
    }

    pub fn flop(&self) -> (b: bool)
        ensures
            b == self.spec_flop(),
    {
        matches!(self, State::Flop)
    }

    pub fn post_flop(&self) -> (b: bool)
        ensures
            b == self.spec_post_flop(),
    {
        matches!(self, State::PostFlop)
    }

    /// Advance to the flop. Whatever the current phase, the result is the
    /// `Flop` phase and nothing else: the transition resets to its target
    /// state rather than guarding on the phase it came from.
    pub fn play_flop(&self) -> (s: State)
        ensures
            s == State::Flop,
    {
        State::Flop
    }

    /// Advance past the flop. Whatever the current phase, the result is the
    /// `PostFlop` phase and nothing else.
    pub fn play_postflop(&self) -> (s: State)
        ensures
            s == State::PostFlop,
    {
        State::PostFlop
    }
}

/// Phase flags are mutually exclusive: every state has exactly one of the
/// three flags true, and the starting state is the one with `pre_flop` true.
pub proof fn lemma_phase_exclusive(s: State)
    ensures
        s.spec_pre_flop() ^ s.spec_flop() ^ s.spec_post_flop(),
        !(s.spec_pre_flop() && s.spec_flop()),
        !(s.spec_flop() && s.spec_post_flop()),
        !(s.spec_pre_flop() && s.spec_post_flop()),
{
}

} // verus!
