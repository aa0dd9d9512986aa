use selector_link::link::{
    EspNowHandler, Exchange, Frame, LinkError, Recovery, Transmission, TICK_PERIOD_MS,
};
use selector_link::peer::{LinkAddress, PeerInfo};

const PEER: LinkAddress = LinkAddress([0x24, 0x0a, 0xc4, 0x11, 0x22, 0x33]);
const OTHER: LinkAddress = LinkAddress([0x24, 0x0a, 0xc4, 0x11, 0x22, 0x34]);
const OWN: LinkAddress = LinkAddress([0x24, 0x0a, 0xc4, 0xaa, 0xbb, 0xcc]);

fn frame(src: LinkAddress, dst: LinkAddress, data: &[u8]) -> Frame {
    Frame { src_address: src, dst_address: dst, data: data.to_vec() }
}

#[test]
fn tick_period_is_a_hundred_milliseconds() {
    assert_eq!(TICK_PERIOD_MS, 100);
}

#[test]
fn new_adapter_knows_no_peer() {
    let link = EspNowHandler::new();
    assert_eq!(link.peers().len(), 0);
    assert!(link.peers().is_empty());
}

#[test]
fn unseen_broadcast_sender_is_registered() {
    let mut link = EspNowHandler::new();
    let registration = link.ensure_peer(PEER, LinkAddress::broadcast());
    assert_eq!(
        registration,
        Some(PeerInfo { peer_address: PEER, lmk: None, channel: None, encrypt: false })
    );
    assert!(link.peers().contains(&PEER));
    assert_eq!(link.peers().len(), 1);
}

#[test]
fn known_broadcast_sender_is_not_registered_again() {
    let mut link = EspNowHandler::new();
    assert!(link.ensure_peer(PEER, LinkAddress::broadcast()).is_some());
    assert_eq!(link.ensure_peer(PEER, LinkAddress::broadcast()), None);
    assert_eq!(link.ensure_peer(PEER, LinkAddress::broadcast()), None);
    assert_eq!(link.peers().len(), 1);
    assert_eq!(
        link.ensure_peer(OTHER, LinkAddress::broadcast()),
        Some(PeerInfo::plain(OTHER))
    );
    assert_eq!(link.peers().len(), 2);
}

#[test]
fn sender_of_a_unicast_frame_is_not_registered() {
    let mut link = EspNowHandler::new();
    assert_eq!(link.ensure_peer(PEER, OWN), None);
    assert!(!link.peers().contains(&PEER));
    assert_eq!(link.peers().len(), 0);
    let mut nearly = [0xffu8; 6];
    nearly[5] = 0xfe;
    assert_eq!(link.ensure_peer(PEER, LinkAddress(nearly)), None);
    assert_eq!(link.peers().len(), 0);
}

#[test]
fn broadcast_frame_is_answered_to_its_sender() {
    let mut link = EspNowHandler::new();
    let exchange =
        link.handle_communication(&frame(PEER, LinkAddress::broadcast(), b"0123456789"), b"2");
    assert_eq!(
        exchange,
        Exchange {
            register: Some(PeerInfo::plain(PEER)),
            reply: Some(Transmission { to: PEER, payload: vec![b'2'] }),
        }
    );
    assert!(link.peers().contains(&PEER));
}

#[test]
fn known_sender_is_answered_without_registration() {
    let mut link = EspNowHandler::new();
    link.handle_communication(&frame(PEER, LinkAddress::broadcast(), b"x"), b"0");
    let exchange = link.handle_communication(&frame(PEER, LinkAddress::broadcast(), b"x"), b"1");
    assert_eq!(exchange.register, None);
    assert_eq!(exchange.reply, Some(Transmission { to: PEER, payload: b"1".to_vec() }));
    assert_eq!(link.peers().len(), 1);
}

#[test]
fn unicast_frame_is_left_unanswered() {
    let mut link = EspNowHandler::new();
    let exchange = link.handle_communication(&frame(PEER, OWN, b"3"), b"3");
    assert_eq!(exchange, Exchange { register: None, reply: None });
    assert_eq!(link.peers().len(), 0);
}

#[test]
fn reply_carries_the_status_unchanged() {
    let mut link = EspNowHandler::new();
    let status: Vec<u8> = (0u8..=249).collect();
    let exchange = link.handle_communication(&frame(PEER, LinkAddress::broadcast(), b""), &status);
    assert_eq!(exchange.reply.unwrap().payload, status);
    let exchange = link.handle_communication(&frame(OTHER, LinkAddress::broadcast(), b""), b"");
    assert_eq!(exchange.reply, Some(Transmission { to: OTHER, payload: Vec::new() }));
}

#[test]
fn failed_registration_halts_the_node() {
    assert_eq!(LinkError::Registration.recovery(), Recovery::Halt);
}

#[test]
fn failed_send_lets_the_loop_go_on() {
    assert_eq!(LinkError::Send.recovery(), Recovery::Proceed);
}
