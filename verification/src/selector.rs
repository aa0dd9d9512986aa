//! The selector and the correspondence between press counter, selector state
//! and wire code.

use vstd::prelude::*;

verus! {

/// The controller's current choice, cycled by confirmed button presses.
#[derive(Clone, Copy, Debug, PartialEq, Eq, Structural)]
pub enum SelectorState {
    Idle,
    OptionA,
    OptionB,
    OptionC,
}

impl SelectorState {
    /// Position of the state in the cycle: `0` for `Idle` up to `3` for `OptionC`.
    pub open spec fn index(self) -> int {
        match self {
            SelectorState::Idle => 0,
            SelectorState::OptionA => 1,
            SelectorState::OptionB => 2,
            SelectorState::OptionC => 3,
        }
    }

    /// The state at position `i` of the cycle; every position outside `0..=3`
    /// stands for `Idle`.
    pub open spec fn at(i: int) -> SelectorState {
        if i == 1 {
            SelectorState::OptionA
        } else if i == 2 {
            SelectorState::OptionB
        } else if i == 3 {
            SelectorState::OptionC
        } else {
            SelectorState::Idle
        }
    }

    /// The state that follows `self` in the cycle, `OptionC` wrapping to `Idle`.
    pub open spec fn successor(self) -> SelectorState {
        Self::at((self.index() + 1) % 4)
    }

    /// The state a press counter stands for. A counter outside `0..=3` stands
    /// for `Idle`.
    pub fn from_counter(counter: i8) -> (state: SelectorState)
        ensures
            state == Self::at(counter as int),
    {
        match counter {
            0 => SelectorState::Idle,
            1 => SelectorState::OptionA,
            2 => SelectorState::OptionB,
            3 => SelectorState::OptionC,
            _ => SelectorState::Idle,
        }
    }

    /// The wire code of a state: the ASCII digit of its position.
    pub open spec fn spec_code(self) -> u8 {
        (0x30 + self.index()) as u8
    }

    /// The state a wire code selects: `'1'`, `'2'` and `'3'` select the three
    /// options, every other byte selects `Idle`.
    pub open spec fn spec_from_code(code: u8) -> SelectorState {
        if code == 0x31 {
            SelectorState::OptionA
        } else if code == 0x32 {
            SelectorState::OptionB
        } else if code == 0x33 {
            SelectorState::OptionC
        } else {
            SelectorState::Idle
        }
    }

    /// The ASCII digit `'0'`..`'3'` that stands for the state on the wire.
    #[verifier::when_used_as_spec(spec_code)]
    pub fn code(self) -> (code: u8)
        ensures
            code == self.spec_code(),
            code == 0x30 + self.index(),
    {
        match self {
            SelectorState::Idle => 0x30,
            SelectorState::OptionA => 0x31,
            SelectorState::OptionB => 0x32,
            SelectorState::OptionC => 0x33,
        }
    }

    /// The state that a received wire code selects; unmapped bytes select `Idle`.
    #[verifier::when_used_as_spec(spec_from_code)]
    pub fn from_code(code: u8) -> (state: SelectorState)
        ensures
            state == Self::spec_from_code(code),
    {
        match code {
            0x31 => SelectorState::OptionA,
            0x32 => SelectorState::OptionB,
            0x33 => SelectorState::OptionC,
            _ => SelectorState::Idle,
        }
    }

    /// The controller's outgoing message for the state: exactly its one-byte code.
    pub fn message(self) -> (payload: [u8; 1])
        ensures
            payload@ == seq![self.spec_code()],
    {
        [self.code()]
    }
}

/// Encoding a state and decoding the code again gives the state back.
pub proof fn lemma_code_round_trip(state: SelectorState)
    ensures
        SelectorState::spec_from_code(state.spec_code()) == state,
        SelectorState::at(state.index()) == state,
{
}

/// Following the cycle four times from any state leads back to it.
pub proof fn lemma_successor_wraps(state: SelectorState)
    ensures
        state.successor().successor().successor().successor() == state,
{
}

} // verus!
