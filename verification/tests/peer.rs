use selector_link::peer::{LinkAddress, PeerInfo, PeerTable};

const A: LinkAddress = LinkAddress([0x24, 0x0a, 0xc4, 0x00, 0x00, 0x01]);
const B: LinkAddress = LinkAddress([0x24, 0x0a, 0xc4, 0x00, 0x00, 0x02]);

#[test]
fn broadcast_address_is_all_ones() {
    assert_eq!(LinkAddress::broadcast().0, [0xff; 6]);
    assert_eq!(LinkAddress::broadcast(), LinkAddress([0xff, 0xff, 0xff, 0xff, 0xff, 0xff]));
    assert!(LinkAddress::broadcast().is_broadcast());
    assert!(LinkAddress([0xff; 6]).is_broadcast());
}

#[test]
fn other_addresses_are_not_broadcast() {
    assert!(!A.is_broadcast());
    assert!(!LinkAddress([0; 6]).is_broadcast());
    for i in 0..6 {
        let mut bytes = [0xffu8; 6];
        bytes[i] = 0xfe;
        assert!(!LinkAddress(bytes).is_broadcast(), "byte {i}");
    }
}

#[test]
fn addresses_compare_byte_by_byte() {
    assert_eq!(A, LinkAddress([0x24, 0x0a, 0xc4, 0x00, 0x00, 0x01]));
    assert_ne!(A, B);
    for i in 0..6 {
        let mut bytes = A.0;
        bytes[i] ^= 0x80;
        assert_ne!(LinkAddress(bytes), A, "byte {i}");
        assert!(!(LinkAddress(bytes) == A));
    }
}

#[test]
fn plain_registration_has_no_key_channel_or_encryption() {
    let info = PeerInfo::plain(A);
    assert_eq!(info.peer_address, A);
    assert_eq!(info.lmk, None);
    assert_eq!(info.channel, None);
    assert!(!info.encrypt);
    assert_eq!(info, PeerInfo { peer_address: A, lmk: None, channel: None, encrypt: false });
}

#[test]
fn new_table_is_empty() {
    let table = PeerTable::new();
    assert_eq!(table.len(), 0);
    assert!(table.is_empty());
    assert!(!table.contains(&A));
    assert!(!table.contains(&LinkAddress::broadcast()));
}

#[test]
fn registering_adds_the_address() {
    let mut table = PeerTable::new();
    assert!(table.register(A));
    assert_eq!(table.len(), 1);
    assert!(!table.is_empty());
    assert!(table.contains(&A));
    assert!(!table.contains(&B));
}

#[test]
fn registering_twice_is_a_no_op() {
    let mut table = PeerTable::new();
    assert!(table.register(A));
    assert_eq!(table.len(), 1);
    assert!(!table.register(A));
    assert_eq!(table.len(), 1);
    assert!(table.contains(&A));
    for _ in 0..10 {
        assert!(!table.register(A));
    }
    assert_eq!(table.len(), 1);
}

#[test]
fn registering_twice_among_others_is_a_no_op() {
    let mut table = PeerTable::new();
    assert!(table.register(A));
    assert!(table.register(B));
    assert_eq!(table.len(), 2);
    assert!(!table.register(A));
    assert!(!table.register(B));
    assert_eq!(table.len(), 2);
    assert!(table.contains(&A));
    assert!(table.contains(&B));
}

#[test]
fn table_holds_each_address_once() {
    let mut table = PeerTable::new();
    for round in 0..3 {
        for last in 0u8..50 {
            let added = table.register(LinkAddress([1, 2, 3, 4, 5, last]));
            assert_eq!(added, round == 0);
        }
        assert_eq!(table.len(), 50);
    }
    assert!(table.contains(&LinkAddress([1, 2, 3, 4, 5, 49])));
    assert!(!table.contains(&LinkAddress([1, 2, 3, 4, 5, 50])));
    assert!(!table.contains(&LinkAddress([0, 2, 3, 4, 5, 49])));
}
