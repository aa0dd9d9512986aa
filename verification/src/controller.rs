//! The controller node: a debounced button that selects one of four states,
//! and a link adapter that tells every peer it hears from which.
//!
//! The node's loop samples the button until the debounce machine is done,
//! then waits for its timer or the radio, whichever comes first, and hands
//! what woke it to the controller.

use vstd::prelude::*;
use crate::debounce::{ButtonAction, ButtonHandler, ButtonModel, SETTLE_DELAY_MS};
use crate::level::Level;
use crate::link::{
    reply_for, sent, wakeup_known, wakeup_registration, EspNowHandler, Exchange, Wakeup,
};
use crate::peer::{LinkAddress, PeerTable};
use crate::selector::SelectorState;

verus! {

/// The mathematical state of the controller.
pub struct ControllerModel {
    /// The debounce machine.
    pub button: ButtonModel,
    /// The addresses in the peer table.
    pub peers: Set<LinkAddress>,
}

/// What the controller's loop does after a wakeup.
#[derive(Clone, Debug, PartialEq, Eq)]
pub struct ControllerOutcome {
    /// What is owed to the radio: a registration, a reply, both or neither.
    pub exchange: Exchange,
    /// The selector state to report.
    pub report: SelectorState,
}

/// What the controller sends after a wakeup: the one-byte code of its
/// selector state, to the sender of a broadcast frame alone. A tick sends
/// nothing.
pub open spec fn controller_reply(state: SelectorState, wakeup: Wakeup) -> Option<
    (LinkAddress, Seq<u8>),
> {
    match wakeup {
        Wakeup::Tick => None,
        Wakeup::Received(frame) => reply_for(
            frame.src_address,
            frame.dst_address,
            seq![state.spec_code()],
        ),
    }
}

/// The controller's loop state: its debounce machine and its link adapter.
pub struct Controller {
    button: ButtonHandler,
    link: EspNowHandler,
}

impl View for Controller {
    type V = ControllerModel;

    /// The state of the debounce machine and the addresses in the peer table.
    closed spec fn view(&self) -> ControllerModel {
        ControllerModel { button: self.button@, peers: self.link@ }
    }
}

impl Controller {
    /// A controller at `Idle` that knows no peer.
    pub fn new() -> (controller: Controller)
        ensures
            controller@.button == ButtonModel::fresh(SETTLE_DELAY_MS),
            controller@.peers == Set::<LinkAddress>::empty(),
    {
        Controller { button: ButtonHandler::new(SETTLE_DELAY_MS), link: EspNowHandler::new() }
    }

    /// The debounce machine.
    pub fn button(&self) -> (button: &ButtonHandler)
        ensures
            button@ == self@.button,
    {
        &self.button
    }

    /// The peer table.
    pub fn peers(&self) -> (peers: &PeerTable)
        ensures
            peers@ == self@.peers,
    {
        self.link.peers()
    }

    /// The selector state.
    pub fn state(&self) -> (state: SelectorState)
        ensures
            state == self@.button.selector(),
    {
        self.button.state()
    }

    /// Hands one raw sample of the button line to the debounce machine and
    /// says what to do next. The peer table is not touched.
    pub fn check_press(&mut self, level: Level) -> (action: ButtonAction)
        ensures
            final(self)@.button == old(self)@.button.step(level.spec_is_low()),
            action == old(self)@.button.action(level.spec_is_low()),
            final(self)@.peers == old(self)@.peers,
            final(self)@.button.wf(),
    {
        self.button.check_press(level)
    }

    /// Handles what ended the wait. A tick sends nothing. A broadcast frame
    /// has its sender registered, if it is new, and answered with the code of
    /// the selector state; any other frame is ignored. Either way the selector
    /// state is reported, and the debounce machine is not touched.
    pub fn handle_wakeup(&mut self, wakeup: &Wakeup) -> (outcome: ControllerOutcome)
        ensures
            final(self)@.button == old(self)@.button,
            final(self)@.peers == wakeup_known(old(self)@.peers, *wakeup),
            outcome.exchange.register == wakeup_registration(old(self)@.peers, *wakeup),
            sent(outcome.exchange.reply) == controller_reply(
                old(self)@.button.selector(),
                *wakeup,
            ),
            outcome.report == old(self)@.button.selector(),
    {
        let state = self.button.state();
        let btn_status = state.message();
        let exchange = match wakeup {
            Wakeup::Tick => Exchange { register: None, reply: None },
            Wakeup::Received(frame) => self.link.handle_communication(frame, btn_status.as_slice()),
        };
        ControllerOutcome { exchange, report: state }
    }
}

} // verus!
