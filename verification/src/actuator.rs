//! The actuator node: three indicators that show the selector code it
//! receives, and a heartbeat that announces the node to whoever listens.
//!
//! The node's loop waits for its timer or the radio, whichever comes first,
//! and hands what woke it to the device.

use vstd::prelude::*;
use crate::indicator::{decode_flags, lit_lines, IndicatorCombination};
use crate::level::Level;
use crate::link::{
    known_after, registration_for, wakeup_known, wakeup_registration, EspNowHandler, Frame,
    Transmission, Wakeup,
};
use crate::peer::{LinkAddress, PeerInfo, PeerTable};

verus! {

/// The heartbeat payload: the ten ASCII digits `"0123456789"`. No receiver
/// reads it; hearing it is what counts.
pub open spec fn heartbeat() -> Seq<u8> {
    seq![0x30u8, 0x31u8, 0x32u8, 0x33u8, 0x34u8, 0x35u8, 0x36u8, 0x37u8, 0x38u8, 0x39u8]
}

/// What a received frame makes of the indicators.
#[derive(Clone, Copy, Debug, PartialEq, Eq)]
pub struct Indication {
    /// The peer to register with the radio first. A radio that refuses the
    /// registration leaves the node unable to go on.
    pub register: Option<PeerInfo>,
    /// The combination to show and to report.
    pub states: IndicatorCombination,
    /// The levels to drive the three active-low outputs to.
    pub levels: (Level, Level, Level),
}

/// What the actuator's loop does after a wakeup.
#[derive(Clone, Debug, PartialEq, Eq)]
pub enum DeviceAction {
    /// Send the heartbeat. A heartbeat the radio fails to send is not sent again.
    Send(Transmission),
    /// Register the sender where that is owed, then show the combination.
    Show(Indication),
}

/// The actuator's loop state: its link adapter.
pub struct Device {
    link: EspNowHandler,
}

impl View for Device {
    type V = Set<LinkAddress>;

    /// The addresses in the peer table.
    closed spec fn view(&self) -> Set<LinkAddress> {
        self.link@
    }
}

impl Device {
    /// A device that knows no peer.
    pub fn new() -> (device: Device)
        ensures
            device@ == Set::<LinkAddress>::empty(),
    {
        Device { link: EspNowHandler::new() }
    }

    /// The peer table.
    pub fn peers(&self) -> (peers: &PeerTable)
        ensures
            peers@ == self@,
    {
        self.link.peers()
    }

    /// The combination a received payload selects: that of its first byte,
    /// all off where the byte is missing or unmapped.
    pub fn handle_message(data: &[u8]) -> (states: IndicatorCombination)
        ensures
            states@ == decode_flags(data@),
    {
        IndicatorCombination::decode(data)
    }

    /// The levels that show a combination on the three active-low outputs:
    /// `Low` for the indicator that is lit, `High` for the others.
    pub fn update_leds(states: IndicatorCombination) -> (levels: (Level, Level, Level))
        ensures
            lit_lines(levels) == states@,
    {
        states.levels()
    }

    /// Handles a received frame: the sender of a broadcast frame is registered
    /// if it is new, and the payload of any frame, broadcast or not, is
    /// decoded into the combination to show.
    pub fn handle_communication(&mut self, frame: &Frame) -> (indication: Indication)
        ensures
            indication.register == registration_for(
                old(self)@,
                frame.src_address,
                frame.dst_address,
            ),
            final(self)@ == known_after(old(self)@, frame.src_address, frame.dst_address),
            indication.states@ == decode_flags(frame.data@),
            lit_lines(indication.levels) == decode_flags(frame.data@),
    {
        let register = self.link.ensure_peer(frame.src_address, frame.dst_address);
        let states = Device::handle_message(frame.data.as_slice());
        let levels = Device::update_leds(states);
        Indication { register, states, levels }
    }

    /// The heartbeat: `"0123456789"`, to the broadcast address.
    pub fn send_message() -> (transmission: Transmission)
        ensures
            transmission.to == LinkAddress::spec_broadcast(),
            transmission.payload@ == heartbeat(),
    {
        let payload: Vec<u8> = vec![0x30, 0x31, 0x32, 0x33, 0x34, 0x35, 0x36, 0x37, 0x38, 0x39];
        assert(payload@ =~= heartbeat());
        Transmission { to: LinkAddress::broadcast(), payload }
    }

    /// Handles what ended the wait. A tick sends the heartbeat and leaves the
    /// peer table as it was; a frame is handled as `handle_communication` says.
    pub fn handle_wakeup(&mut self, wakeup: &Wakeup) -> (action: DeviceAction)
        ensures
            final(self)@ == wakeup_known(old(self)@, *wakeup),
            match *wakeup {
                Wakeup::Tick => {
                    &&& action matches DeviceAction::Send(t)
                    &&& t.to == LinkAddress::spec_broadcast()
                    &&& t.payload@ == heartbeat()
                },
                Wakeup::Received(frame) => {
                    &&& action matches DeviceAction::Show(i)
                    &&& i.register == wakeup_registration(old(self)@, *wakeup)
                    &&& i.states@ == decode_flags(frame.data@)
                    &&& lit_lines(i.levels) == decode_flags(frame.data@)
                },
            },
    {
        match wakeup {
            Wakeup::Tick => DeviceAction::Send(Device::send_message()),
            Wakeup::Received(frame) => DeviceAction::Show(self.handle_communication(frame)),
        }
    }
}

} // verus!
