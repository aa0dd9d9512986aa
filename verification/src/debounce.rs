//! The debounce state machine: raw, bouncy samples of the button line in, a
//! stable selector state out.
//!
//! Reading the line and waiting are the caller's business. The machine is fed
//! one raw sample at a time and answers with what the caller has to do next:
//! wait for the line to settle and sample again, sample again at once while
//! the button is held, or carry on with the selector state it reports.

use vstd::prelude::*;
use crate::level::Level;
use crate::selector::SelectorState;

verus! {

/// The stabilization delay, in milliseconds, between the first reading of a
/// press and the reading that confirms it.
pub const SETTLE_DELAY_MS: u32 = 10;

/// Where the machine stands within one sampling of the button.
#[derive(Clone, Copy, Debug, PartialEq, Eq, Structural)]
pub enum ButtonPhase {
    /// Between samplings: the next sample is the first reading of one.
    Ready,
    /// The first reading showed a press; the next sample confirms or discards it.
    Settling,
    /// A press was confirmed and counted; samples are awaited until the line is released.
    Held,
}

/// What the caller does after handing over a sample.
#[derive(Clone, Copy, Debug, PartialEq, Eq, Structural)]
pub enum ButtonAction {
    /// Wait the given number of milliseconds, then hand over a fresh sample.
    Settle(u32),
    /// The button is held: hand over a fresh sample at once.
    Resample,
    /// The sampling is over; this is the selector state to go on with.
    Done(SelectorState),
}

/// The mathematical state of the debounce machine.
pub struct ButtonModel {
    /// Confirmed presses since the counter last wrapped.
    pub counter: int,
    /// Where the machine stands within a sampling.
    pub phase: ButtonPhase,
    /// The settle delay the machine was made with, in milliseconds.
    pub settle_ms: u32,
}

impl ButtonModel {
    /// The state of a machine that has seen no sample yet.
    pub open spec fn fresh(settle_ms: u32) -> ButtonModel {
        ButtonModel { counter: 0, phase: ButtonPhase::Ready, settle_ms }
    }

    /// The counter stays within `0..=3` between samplings; only while a
    /// counted press is still held may it stand at `4`, to wrap on release.
    pub open spec fn wf(self) -> bool {
        &&& 0 <= self.counter <= 4
        &&& self.phase != ButtonPhase::Held ==> self.counter <= 3
    }

    /// The selector state the counter stands for.
    pub open spec fn selector(self) -> SelectorState {
        SelectorState::at(self.counter)
    }

    /// The end of a sampling: a counter outside `0..=3` is reset to `0`, and
    /// the machine is ready for the next sampling.
    pub open spec fn resolved(self) -> ButtonModel {
        ButtonModel {
            counter: if 0 <= self.counter <= 3 { self.counter } else { 0 },
            phase: ButtonPhase::Ready,
            settle_ms: self.settle_ms,
        }
    }

    /// The machine's state after one raw sample.
    pub open spec fn step(self, pressed: bool) -> ButtonModel {
        if !pressed {
            self.resolved()
        } else {
            match self.phase {
                ButtonPhase::Ready => ButtonModel { phase: ButtonPhase::Settling, ..self },
                ButtonPhase::Settling => ButtonModel {
                    counter: self.counter + 1,
                    phase: ButtonPhase::Held,
                    settle_ms: self.settle_ms,
                },
                ButtonPhase::Held => self,
            }
        }
    }

    /// The machine's answer to one raw sample.
    pub open spec fn action(self, pressed: bool) -> ButtonAction {
        if !pressed {
            ButtonAction::Done(self.resolved().selector())
        } else {
            match self.phase {
                ButtonPhase::Ready => ButtonAction::Settle(self.settle_ms),
                ButtonPhase::Settling => ButtonAction::Resample,
                ButtonPhase::Held => ButtonAction::Resample,
            }
        }
    }

    /// Whether a sample is the one that confirms a press: the second
    /// consecutive "pressed" reading of a sampling.
    pub open spec fn confirms(self, pressed: bool) -> bool {
        pressed && self.phase == ButtonPhase::Settling
    }

    /// The machine's state after a sequence of raw samples, oldest first.
    pub open spec fn run(self, samples: Seq<bool>) -> ButtonModel
        decreases samples.len(),
    {
        if samples.len() == 0 {
            self
        } else {
            self.step(samples[0]).run(samples.drop_first())
        }
    }

    /// The raw samples of one confirmed press: the first reading, the
    /// confirming reading, `hold` further readings while the button stays
    /// down, and the reading that shows it released.
    pub open spec fn press_samples(hold: nat) -> Seq<bool> {
        seq![true, true] + Seq::new(hold, |i: int| true) + seq![false]
    }

    /// The machine's state after one confirmed press held for `hold` extra readings.
    pub open spec fn press(self, hold: nat) -> ButtonModel {
        self.run(Self::press_samples(hold))
    }
}

/// The debounce state machine of the controller's button.
pub struct ButtonHandler {
    counter: i8,
    phase: ButtonPhase,
    settle_ms: u32,
}

impl View for ButtonHandler {
    type V = ButtonModel;

    /// The counter, the phase and the settle delay of the machine.
    closed spec fn view(&self) -> ButtonModel {
        ButtonModel { counter: self.counter as int, phase: self.phase, settle_ms: self.settle_ms }
    }
}

impl ButtonHandler {
    #[verifier::type_invariant]
    spec fn inv(self) -> bool {
        self@.wf()
    }

    /// A machine that has counted no press, with the given settle delay in milliseconds.
    pub fn new(settle_ms: u32) -> (handler: ButtonHandler)
        ensures
            handler@ == ButtonModel::fresh(settle_ms),
            handler@.wf(),
    {
        ButtonHandler { counter: 0, phase: ButtonPhase::Ready, settle_ms }
    }

    /// The number of confirmed presses since the counter last wrapped.
    pub fn counter(&self) -> (counter: i8)
        ensures
            counter == self@.counter,
            0 <= counter <= 4,
            self@.wf(),
    {
        proof {
            use_type_invariant(self);
        }
        self.counter
    }

    /// Where the machine stands within a sampling.
    pub fn phase(&self) -> (phase: ButtonPhase)
        ensures
            phase == self@.phase,
    {
        self.phase
    }

    /// The selector state the counter stands for.
    pub fn state(&self) -> (state: SelectorState)
        ensures
            state == self@.selector(),
    {
        SelectorState::from_counter(self.counter)
    }

    /// Takes one raw sample of the button line (`Low` is "pressed") and says
    /// what to do next.
    ///
    /// A first "pressed" reading asks for the settle delay and a second
    /// reading. A second "pressed" reading is a confirmed press: it is counted
    /// once, and further samples are asked for until the line is released. A
    /// "released" reading ends the sampling: the counter is mapped to the
    /// selector state, a counter past `3` wrapping to `0`.
    pub fn check_press(&mut self, level: Level) -> (action: ButtonAction)
        ensures
            final(self)@ == old(self)@.step(level.spec_is_low()),
            action == old(self)@.action(level.spec_is_low()),
            final(self)@.wf(),
    {
        proof {
            use_type_invariant(&*self);
        }
        if level.is_low() {
            match self.phase {
                ButtonPhase::Ready => {
                    self.phase = ButtonPhase::Settling;
                    ButtonAction::Settle(self.settle_ms)
                },
                ButtonPhase::Settling => {
                    self.phase = ButtonPhase::Held;
                    self.counter = self.counter + 1;
                    ButtonAction::Resample
                },
                ButtonPhase::Held => ButtonAction::Resample,
            }
        } else {
            let state = match self.counter {
                0 => SelectorState::Idle,
                1 => SelectorState::OptionA,
                2 => SelectorState::OptionB,
                3 => SelectorState::OptionC,
                _ => {
                    self.counter = 0;
                    SelectorState::Idle
                },
            };
            self.phase = ButtonPhase::Ready;
            ButtonAction::Done(state)
        }
    }
}

/// Running two sample sequences one after the other is running their concatenation.
proof fn lemma_run_concat(m: ButtonModel, a: Seq<bool>, b: Seq<bool>)
    ensures
        m.run(a + b) == m.run(a).run(b),
    decreases a.len(),
{
    if a.len() == 0 {
        assert(a + b =~= b);
    } else {
        assert((a + b)[0] == a[0]);
        assert((a + b).drop_first() =~= a.drop_first() + b);
        lemma_run_concat(m.step(a[0]), a.drop_first(), b);
    }
}

/// Running a single sample is taking one step.
proof fn lemma_run_one(m: ButtonModel, pressed: bool)
    ensures
        m.run(seq![pressed]) == m.step(pressed),
{
    reveal_with_fuel(ButtonModel::run, 2);
    assert(seq![pressed].drop_first() =~= Seq::<bool>::empty());
}

/// While a counted press is held, further "pressed" readings change nothing.
proof fn lemma_run_held(m: ButtonModel, hold: nat)
    requires
        m.phase == ButtonPhase::Held,
    ensures
        m.run(Seq::new(hold, |i: int| true)) == m,
    decreases hold,
{
    if hold > 0 {
        let samples = Seq::new(hold, |i: int| true);
        assert(samples.drop_first() =~= Seq::new((hold - 1) as nat, |i: int| true));
        lemma_run_held(m, (hold - 1) as nat);
    }
}

/// However long the button is held, one confirmed press moves the counter on
/// by exactly one, past `3` back to `0`, and leaves the machine ready for the
/// next sampling.
pub proof fn lemma_press_advances(m: ButtonModel, hold: nat)
    requires
        m.wf(),
        m.phase == ButtonPhase::Ready,
    ensures
        m.press(hold) == (ButtonModel { counter: (m.counter + 1) % 4, ..m }),
        m.press(hold).selector() == m.selector().successor(),
        m.press(hold).wf(),
{
    let down = seq![true, true];
    let held = Seq::new(hold, |i: int| true);
    let up = seq![false];
    let counted = m.step(true).step(true);
    assert(m.run(down) == counted) by {
        assert(down =~= seq![true] + seq![true]);
        lemma_run_concat(m, seq![true], seq![true]);
        lemma_run_one(m, true);
        lemma_run_one(m.step(true), true);
    }
    lemma_run_concat(m, down, held);
    lemma_run_held(counted, hold);
    lemma_run_concat(m, down + held, up);
    lemma_run_one(counted, false);
}

/// Whatever raw samples arrive, the counter stays within its bounds, so the
/// selector state the machine exposes is always the one its counter stands
/// for: `Idle`, `OptionA`, `OptionB` or `OptionC`.
pub proof fn lemma_selector_always_defined(m: ButtonModel, samples: Seq<bool>)
    requires
        m.wf(),
    ensures
        m.run(samples).wf(),
        m.run(samples).selector().index() == m.run(samples).counter % 4,
    decreases samples.len(),
{
    if samples.len() > 0 {
        lemma_selector_always_defined(m.step(samples[0]), samples.drop_first());
    }
}

/// The sample that confirms a press moves the selector on by exactly one
/// position, modulo four; every other sample leaves the selector where it was.
pub proof fn lemma_confirmed_press_counts_once(m: ButtonModel, pressed: bool)
    requires
        m.wf(),
    ensures
        m.step(pressed).wf(),
        m.confirms(pressed) ==> m.step(pressed).counter == m.counter + 1,
        m.confirms(pressed) ==> m.step(pressed).selector().index() == (m.selector().index() + 1)
            % 4,
        !m.confirms(pressed) ==> m.step(pressed).selector() == m.selector(),
{
}

/// Four confirmed presses bring the machine back to where it started; from a
/// fresh machine that is `Idle` again.
pub proof fn lemma_four_presses_wrap(m: ButtonModel, h1: nat, h2: nat, h3: nat, h4: nat)
    requires
        m.wf(),
        m.phase == ButtonPhase::Ready,
    ensures
        m.press(h1).press(h2).press(h3).press(h4) == m,
        ButtonModel::fresh(m.settle_ms).press(h1).press(h2).press(h3).press(h4).selector()
            == SelectorState::Idle,
{
    lemma_press_advances(m, h1);
    lemma_press_advances(m.press(h1), h2);
    lemma_press_advances(m.press(h1).press(h2), h3);
    lemma_press_advances(m.press(h1).press(h2).press(h3), h4);
    let f = ButtonModel::fresh(m.settle_ms);
    lemma_press_advances(f, h1);
    lemma_press_advances(f.press(h1), h2);
    lemma_press_advances(f.press(h1).press(h2), h3);
    lemma_press_advances(f.press(h1).press(h2).press(h3), h4);
}

/// A press whose confirming sample reads "released" is noise: that sample
/// ends the sampling with the counter and the selector state as they were,
/// and no press is counted.
pub proof fn lemma_unconfirmed_press_discarded(m: ButtonModel)
    requires
        m.wf(),
        m.phase == ButtonPhase::Settling,
    ensures
        m.step(false).counter == m.counter,
        m.step(false).selector() == m.selector(),
        m.step(false).phase == ButtonPhase::Ready,
        m.action(false) == ButtonAction::Done(m.selector()),
{
}

/// A sampling that sees a press and then fails to confirm it leaves the whole
/// machine as it was before the first reading.
pub proof fn lemma_noise_leaves_no_trace(m: ButtonModel)
    requires
        m.wf(),
        m.phase == ButtonPhase::Ready,
    ensures
        m.run(seq![true, false]) == m,
        m.step(true).action(false) == ButtonAction::Done(m.selector()),
{
    assert(seq![true, false] =~= seq![true] + seq![false]);
    lemma_run_concat(m, seq![true], seq![false]);
    lemma_run_one(m, true);
    lemma_run_one(m.step(true), false);
}

} // verus!
