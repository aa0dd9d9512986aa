//! The wireless link adapter: what a node does with a frame the radio hands
//! it, and what it hands the radio to send.
//!
//! Receiving and sending are the caller's business. The adapter keeps the peer
//! table and decides, frame by frame, whether the sender has to be registered
//! with the radio and what, if anything, is sent back.

use vstd::prelude::*;
use crate::peer::{LinkAddress, PeerInfo, PeerTable};

verus! {

/// The period of a node's loop timer, in milliseconds.
pub const TICK_PERIOD_MS: u64 = 100;

/// What the radio can fail at.
#[derive(Clone, Copy, Debug, PartialEq, Eq, Structural)]
pub enum LinkError {
    /// A peer could not be registered.
    Registration,
    /// A payload could not be sent.
    Send,
}

/// What a node does about a failure of its radio.
#[derive(Clone, Copy, Debug, PartialEq, Eq, Structural)]
pub enum Recovery {
    /// Report the failure and go on with the loop. Nothing is tried again.
    Proceed,
    /// Stop the node: it cannot go on with a peer the radio does not know.
    Halt,
}

impl LinkError {
    /// A failed registration stops the node; a failed send does not.
    pub open spec fn spec_recovery(self) -> Recovery {
        match self {
            LinkError::Registration => Recovery::Halt,
            LinkError::Send => Recovery::Proceed,
        }
    }

    /// What the node does about the failure.
    #[verifier::when_used_as_spec(spec_recovery)]
    pub fn recovery(self) -> (recovery: Recovery)
        ensures
            recovery == self.spec_recovery(),
    {
        match self {
            LinkError::Registration => Recovery::Halt,
            LinkError::Send => Recovery::Proceed,
        }
    }
}

/// A frame as the radio delivers it.
#[derive(Clone, Debug, PartialEq, Eq)]
pub struct Frame {
    /// The address of the radio that sent the frame.
    pub src_address: LinkAddress,
    /// The address the frame was sent to.
    pub dst_address: LinkAddress,
    /// The payload.
    pub data: Vec<u8>,
}

/// What ended a node's wait: its timer or the radio, whichever came first.
#[derive(Clone, Debug, PartialEq, Eq)]
pub enum Wakeup {
    /// The periodic timer fired before any frame arrived.
    Tick,
    /// A frame arrived before the timer fired.
    Received(Frame),
}

/// A payload for the radio to send, and where to.
#[derive(Clone, Debug, PartialEq, Eq)]
pub struct Transmission {
    /// The destination: a peer's address, or the broadcast address.
    pub to: LinkAddress,
    /// The bytes to send.
    pub payload: Vec<u8>,
}

/// What the controller owes the radio after a frame arrived.
#[derive(Clone, Debug, PartialEq, Eq)]
pub struct Exchange {
    /// The peer to register with the radio before anything is sent. A radio
    /// that refuses the registration leaves the node unable to go on.
    pub register: Option<PeerInfo>,
    /// The reply to send once the peer is registered. A reply the radio fails
    /// to send is not sent again.
    pub reply: Option<Transmission>,
}

/// The registration a frame calls for: the sender of a broadcast frame is
/// registered, without key, channel override or encryption, unless the table
/// knows it already.
pub open spec fn registration_for(
    known: Set<LinkAddress>,
    src: LinkAddress,
    dst: LinkAddress,
) -> Option<PeerInfo> {
    if dst.spec_is_broadcast() && !known.contains(src) {
        Some(PeerInfo::spec_plain(src))
    } else {
        None
    }
}

/// The peer table after a frame: the sender of a broadcast frame is in it,
/// and nothing else has changed.
pub open spec fn known_after(known: Set<LinkAddress>, src: LinkAddress, dst: LinkAddress) -> Set<
    LinkAddress,
> {
    if dst.spec_is_broadcast() {
        PeerTable::spec_register(known, src)
    } else {
        known
    }
}

/// The reply to a frame: the status, sent to the sender alone, where the
/// frame was a broadcast; nothing where it was not.
pub open spec fn reply_for(src: LinkAddress, dst: LinkAddress, status: Seq<u8>) -> Option<
    (LinkAddress, Seq<u8>),
> {
    if dst.spec_is_broadcast() {
        Some((src, status))
    } else {
        None
    }
}

/// The registration owed after a wakeup: that of the frame which ended the
/// wait, none after a tick.
pub open spec fn wakeup_registration(known: Set<LinkAddress>, wakeup: Wakeup) -> Option<PeerInfo> {
    match wakeup {
        Wakeup::Tick => None,
        Wakeup::Received(frame) => registration_for(known, frame.src_address, frame.dst_address),
    }
}

/// The peer table after a wakeup: a tick leaves it as it was.
pub open spec fn wakeup_known(known: Set<LinkAddress>, wakeup: Wakeup) -> Set<LinkAddress> {
    match wakeup {
        Wakeup::Tick => known,
        Wakeup::Received(frame) => known_after(known, frame.src_address, frame.dst_address),
    }
}

/// The peer table after a sequence of wakeups, oldest first.
pub open spec fn known_after_all(known: Set<LinkAddress>, wakeups: Seq<Wakeup>) -> Set<
    LinkAddress,
>
    decreases wakeups.len(),
{
    if wakeups.len() == 0 {
        known
    } else {
        known_after_all(wakeup_known(known, wakeups[0]), wakeups.drop_first())
    }
}

/// Whether a wakeup is a broadcast frame sent by `address`.
pub open spec fn announces(wakeup: Wakeup, address: LinkAddress) -> bool {
    wakeup matches Wakeup::Received(frame) && frame.dst_address.spec_is_broadcast()
        && frame.src_address == address
}

/// Whether one of the wakeups is a broadcast frame sent by `address`.
pub open spec fn heard_from(wakeups: Seq<Wakeup>, address: LinkAddress) -> bool {
    exists|i: int| 0 <= i < wakeups.len() && announces(#[trigger] wakeups[i], address)
}

/// The destination and bytes of a transmission that may or may not be owed.
pub open spec fn sent(transmission: Option<Transmission>) -> Option<(LinkAddress, Seq<u8>)> {
    match transmission {
        Some(t) => Some((t.to, t.payload@)),
        None => None,
    }
}

/// A copy of `bytes` that the radio can be handed.
fn to_payload(bytes: &[u8]) -> (payload: Vec<u8>)
    ensures
        payload@ == bytes@,
{
    let mut payload: Vec<u8> = Vec::new();
    let mut i: usize = 0;
    while i < bytes.len()
        invariant
            i <= bytes@.len(),
            payload@ == bytes@.take(i as int),
        decreases bytes@.len() - i,
    {
        payload.push(bytes[i]);
        i += 1;
        assert(bytes@.take(i as int) =~= bytes@.take(i - 1).push(bytes@[i - 1]));
    }
    assert(bytes@.take(i as int) =~= bytes@);
    payload
}

/// The link adapter of a node: the peers it has registered.
pub struct EspNowHandler {
    peers: PeerTable,
}

impl View for EspNowHandler {
    type V = Set<LinkAddress>;

    /// The addresses in the peer table.
    closed spec fn view(&self) -> Set<LinkAddress> {
        self.peers@
    }
}

impl EspNowHandler {
    /// An adapter that knows no peer.
    pub fn new() -> (handler: EspNowHandler)
        ensures
            handler@ == Set::<LinkAddress>::empty(),
    {
        EspNowHandler { peers: PeerTable::new() }
    }

    /// The peer table.
    pub fn peers(&self) -> (peers: &PeerTable)
        ensures
            peers@ == self@,
    {
        &self.peers
    }

    /// Applies the registration rule to a frame from `src` to `dst`: enters
    /// the sender of a broadcast frame in the peer table and, where it was
    /// not there before, returns the registration that the radio is owed.
    pub fn ensure_peer(&mut self, src: LinkAddress, dst: LinkAddress) -> (registration: Option<
        PeerInfo,
    >)
        ensures
            registration == registration_for(old(self)@, src, dst),
            final(self)@ == known_after(old(self)@, src, dst),
    {
        if dst.is_broadcast() && self.peers.register(src) {
            Some(PeerInfo::plain(src))
        } else {
            None
        }
    }

    /// The controller's answer to a received frame: the sender of a broadcast
    /// frame is registered if it is new, and is sent `btn_status` back, to
    /// its own address. A frame that was not a broadcast is left unanswered.
    pub fn handle_communication(&mut self, frame: &Frame, btn_status: &[u8]) -> (exchange: Exchange)
        ensures
            exchange.register == registration_for(
                old(self)@,
                frame.src_address,
                frame.dst_address,
            ),
            sent(exchange.reply) == reply_for(frame.src_address, frame.dst_address, btn_status@),
            final(self)@ == known_after(old(self)@, frame.src_address, frame.dst_address),
    {
        let register = self.ensure_peer(frame.src_address, frame.dst_address);
        let reply = if frame.dst_address.is_broadcast() {
            Some(Transmission { to: frame.src_address, payload: to_payload(btn_status) })
        } else {
            None
        };
        Exchange { register, reply }
    }
}

/// A frame from a known sender registers nothing and leaves the table as it
/// was; so does every frame that is not a broadcast.
pub proof fn lemma_known_sender_not_registered_again(
    known: Set<LinkAddress>,
    src: LinkAddress,
    dst: LinkAddress,
)
    ensures
        registration_for(known_after(known, src, dst), src, dst) is None,
        known_after(known_after(known, src, dst), src, dst) == known_after(known, src, dst),
        !dst.spec_is_broadcast() ==> registration_for(known, src, dst) is None && known_after(
            known,
            src,
            dst,
        ) == known,
{
    assert(known.insert(src).insert(src) =~= known.insert(src));
}

/// Whatever wakes a node and in whatever order, its peer table holds the
/// addresses it held at first and the senders of the broadcast frames it has
/// heard, and no other address.
pub proof fn lemma_table_holds_who_was_heard(
    known: Set<LinkAddress>,
    wakeups: Seq<Wakeup>,
    address: LinkAddress,
)
    ensures
        known_after_all(known, wakeups).contains(address) <==> known.contains(address)
            || heard_from(wakeups, address),
    decreases wakeups.len(),
{
    if wakeups.len() > 0 {
        let first = wakeups[0];
        let rest = wakeups.drop_first();
        lemma_table_holds_who_was_heard(wakeup_known(known, first), rest, address);
        if heard_from(rest, address) {
            let i = choose|i: int| 0 <= i < rest.len() && announces(#[trigger] rest[i], address);
            assert(announces(wakeups[i + 1], address));
        }
        if heard_from(wakeups, address) && !announces(first, address) {
            let i = choose|i: int|
                0 <= i < wakeups.len() && announces(#[trigger] wakeups[i], address);
            assert(announces(rest[i - 1], address));
        }
    }
}

} // verus!
