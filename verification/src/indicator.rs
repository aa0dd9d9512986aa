//! The three indicators: their states, the combinations they may show and the
//! rule that decodes a received payload into a combination.

use vstd::prelude::*;
use crate::level::Level;
use crate::selector::SelectorState;

verus! {

/// Whether one indicator is lit.
#[derive(Clone, Copy, Debug, PartialEq, Eq, Structural)]
pub enum LedState {
    On,
    Off,
}

impl LedState {
    /// Whether the indicator is lit.
    pub open spec fn is_on(self) -> bool {
        self is On
    }

    /// The level that shows the state on an active-low output: `Low` lights
    /// the indicator, `High` puts it out.
    pub open spec fn spec_apply(self) -> Level {
        match self {
            LedState::On => Level::Low,
            LedState::Off => Level::High,
        }
    }

    /// The level to drive the indicator's output line to.
    #[verifier::when_used_as_spec(spec_apply)]
    pub fn apply(self) -> (level: Level)
        ensures
            level == self.spec_apply(),
            level.spec_is_low() == self.is_on(),
    {
        match self {
            LedState::On => Level::Low,
            LedState::Off => Level::High,
        }
    }
}

/// The number of flags that are set among three.
pub open spec fn active_count(flags: (bool, bool, bool)) -> int {
    (if flags.0 { 1int } else { 0int }) + (if flags.1 { 1int } else { 0int }) + (if flags.2 {
        1int
    } else {
        0int
    })
}

/// At most one of three flags is set.
pub open spec fn exclusive(flags: (bool, bool, bool)) -> bool {
    active_count(flags) <= 1
}

/// The flags a selector state lights: none for `Idle`, the first, second or
/// third alone for `OptionA`, `OptionB`, `OptionC`.
pub open spec fn flags_for_state(state: SelectorState) -> (bool, bool, bool) {
    (state is OptionA, state is OptionB, state is OptionC)
}

/// The flags a wire code lights: `'1'`, `'2'`, `'3'` light the first, second
/// or third alone; `'0'` and every unmapped byte light none.
pub open spec fn flags_for_code(code: u8) -> (bool, bool, bool) {
    (code == 0x31, code == 0x32, code == 0x33)
}

/// The flags a received payload lights: those of its first byte, none where
/// the payload is empty. Bytes after the first are not looked at.
pub open spec fn decode_flags(payload: Seq<u8>) -> (bool, bool, bool) {
    if payload.len() == 0 {
        (false, false, false)
    } else {
        flags_for_code(payload[0])
    }
}

/// Which of three active-low output lines light their indicator: those at `Low`.
pub open spec fn lit_lines(levels: (Level, Level, Level)) -> (bool, bool, bool) {
    (levels.0.spec_is_low(), levels.1.spec_is_low(), levels.2.spec_is_low())
}

/// The activation flags of the three indicators, of which at most one is set.
#[derive(Clone, Copy, Debug, PartialEq, Eq, Structural)]
pub struct IndicatorCombination {
    first: LedState,
    second: LedState,
    third: LedState,
}

impl View for IndicatorCombination {
    type V = (bool, bool, bool);

    /// The three activation flags, in the order of the outputs.
    closed spec fn view(&self) -> (bool, bool, bool) {
        (self.first.is_on(), self.second.is_on(), self.third.is_on())
    }
}

impl IndicatorCombination {
    #[verifier::type_invariant]
    spec fn inv(self) -> bool {
        exclusive(self@)
    }

    /// The combination with every indicator off.
    pub fn all_off() -> (combination: IndicatorCombination)
        ensures
            combination@ == (false, false, false),
    {
        IndicatorCombination { first: LedState::Off, second: LedState::Off, third: LedState::Off }
    }

    /// The combination that shows a selector state.
    pub fn for_state(state: SelectorState) -> (combination: IndicatorCombination)
        ensures
            combination@ == flags_for_state(state),
            exclusive(combination@),
    {
        match state {
            SelectorState::Idle => IndicatorCombination::all_off(),
            SelectorState::OptionA => IndicatorCombination {
                first: LedState::On,
                second: LedState::Off,
                third: LedState::Off,
            },
            SelectorState::OptionB => IndicatorCombination {
                first: LedState::Off,
                second: LedState::On,
                third: LedState::Off,
            },
            SelectorState::OptionC => IndicatorCombination {
                first: LedState::Off,
                second: LedState::Off,
                third: LedState::On,
            },
        }
    }

    /// Decodes a received payload: only its first byte is read, and a missing
    /// or unmapped byte gives the all-off combination.
    pub fn decode(payload: &[u8]) -> (combination: IndicatorCombination)
        ensures
            combination@ == decode_flags(payload@),
            exclusive(combination@),
    {
        if payload.len() == 0 {
            IndicatorCombination::all_off()
        } else {
            IndicatorCombination::for_state(SelectorState::from_code(payload[0]))
        }
    }

    /// The states of the three indicators, in the order of the outputs.
    pub fn states(&self) -> (states: (LedState, LedState, LedState))
        ensures
            (states.0.is_on(), states.1.is_on(), states.2.is_on()) == self@,
            exclusive(self@),
    {
        proof {
            use_type_invariant(self);
        }
        (self.first, self.second, self.third)
    }

    /// The number of indicators that are lit: zero or one.
    pub fn lit(&self) -> (count: u8)
        ensures
            count == active_count(self@),
            count <= 1,
    {
        proof {
            use_type_invariant(self);
        }
        match (self.first, self.second, self.third) {
            (LedState::Off, LedState::Off, LedState::Off) => 0,
            _ => 1,
        }
    }

    /// The levels to drive the three active-low outputs to.
    pub fn levels(&self) -> (levels: (Level, Level, Level))
        ensures
            lit_lines(levels) == self@,
    {
        (self.first.apply(), self.second.apply(), self.third.apply())
    }
}

/// A combination is its three flags and nothing more.
pub proof fn lemma_combination_by_flags(a: IndicatorCombination, b: IndicatorCombination)
    ensures
        a@ == b@ <==> a == b,
{
}

/// Decoding looks at the first byte alone: two payloads that start with the
/// same byte decode alike, whatever follows and however long they are.
pub proof fn lemma_decode_reads_first_byte(p: Seq<u8>, q: Seq<u8>)
    requires
        p.len() > 0,
        q.len() > 0,
        p[0] == q[0],
    ensures
        decode_flags(p) == decode_flags(q),
        decode_flags(p) == decode_flags(seq![p[0]]),
{
}

/// Decoding a wire code and showing the state that the code selects are the
/// same thing, and showing the state that a controller encoded gives that
/// state's combination back.
pub proof fn lemma_code_selects_state(code: u8, state: SelectorState)
    ensures
        flags_for_code(code) == flags_for_state(SelectorState::spec_from_code(code)),
        flags_for_code(state.spec_code()) == flags_for_state(state),
        decode_flags(seq![state.spec_code()]) == flags_for_state(state),
{
}

/// Whatever is received, at most one indicator is lit.
pub proof fn lemma_decode_exclusive(payload: Seq<u8>)
    ensures
        exclusive(decode_flags(payload)),
{
}

/// Whatever the selector state, at most one indicator is lit.
pub proof fn lemma_state_exclusive(state: SelectorState)
    ensures
        exclusive(flags_for_state(state)),
{
}

} // verus!
