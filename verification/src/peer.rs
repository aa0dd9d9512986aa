//! Link addresses and the table of peers a node has registered.

use vstd::prelude::*;

verus! {

/// The hardware address of a radio on the link: six bytes, compared byte by byte.
#[derive(Clone, Copy, Debug)]
pub struct LinkAddress(pub [u8; 6]);

impl View for LinkAddress {
    type V = Seq<u8>;

    /// The six bytes of the address.
    open spec fn view(&self) -> Seq<u8> {
        self.0@
    }
}

impl PartialEq for LinkAddress {
    /// Compares the six bytes.
    fn eq(&self, other: &LinkAddress) -> (same: bool) {
        let same = self.0[0] == other.0[0] && self.0[1] == other.0[1] && self.0[2] == other.0[2]
            && self.0[3] == other.0[3] && self.0[4] == other.0[4] && self.0[5] == other.0[5];
        proof {
            if same {
                assert(self.0 =~= other.0);
            }
        }
        same
    }
}

impl Eq for LinkAddress {

}

impl vstd::std_specs::cmp::PartialEqSpecImpl for LinkAddress {
    open spec fn obeys_eq_spec() -> bool {
        true
    }

    /// `==` on addresses is equality of their bytes.
    open spec fn eq_spec(&self, other: &LinkAddress) -> bool {
        *self == *other
    }
}

impl LinkAddress {
    /// The reserved destination address that delivers a frame to every
    /// listener in range: all six bytes `0xff`.
    pub open spec fn spec_broadcast() -> LinkAddress {
        LinkAddress([0xff, 0xff, 0xff, 0xff, 0xff, 0xff])
    }

    /// The broadcast address.
    #[verifier::when_used_as_spec(spec_broadcast)]
    pub fn broadcast() -> (address: LinkAddress)
        ensures
            address == Self::spec_broadcast(),
    {
        LinkAddress([0xff, 0xff, 0xff, 0xff, 0xff, 0xff])
    }

    /// Whether this is the broadcast address.
    pub open spec fn spec_is_broadcast(&self) -> bool {
        *self == Self::spec_broadcast()
    }

    /// Whether this is the broadcast address.
    #[verifier::when_used_as_spec(spec_is_broadcast)]
    pub fn is_broadcast(&self) -> (yes: bool)
        ensures
            yes == self.spec_is_broadcast(),
    {
        *self == Self::broadcast()
    }
}

/// Two addresses are the same exactly when their six bytes are.
pub proof fn lemma_address_by_bytes(a: LinkAddress, b: LinkAddress)
    ensures
        a == b <==> a@ == b@,
        a@.len() == 6,
        a.spec_is_broadcast() <==> forall|i: int| 0 <= i < 6 ==> a@[i] == 0xff,
{
    if a@ == b@ {
        assert(a.0 =~= b.0);
    }
    let all = LinkAddress::spec_broadcast();
    if forall|i: int| 0 <= i < 6 ==> a@[i] == 0xff {
        assert(a.0 =~= all.0);
    }
}

/// What the radio is told when a peer is registered.
#[derive(Clone, Copy, Debug, PartialEq, Eq)]
pub struct PeerInfo {
    /// The peer's address.
    pub peer_address: LinkAddress,
    /// The local master key for encrypted traffic with the peer, if any.
    pub lmk: Option<[u8; 16]>,
    /// The channel to reach the peer on, if it is not the current one.
    pub channel: Option<u8>,
    /// Whether traffic with the peer is encrypted.
    pub encrypt: bool,
}

impl PeerInfo {
    /// The registration this design uses for every peer: no key, no channel
    /// override, no encryption.
    pub open spec fn spec_plain(peer_address: LinkAddress) -> PeerInfo {
        PeerInfo { peer_address, lmk: None, channel: None, encrypt: false }
    }

    /// The registration of `peer_address` without key, channel override or encryption.
    #[verifier::when_used_as_spec(spec_plain)]
    pub fn plain(peer_address: LinkAddress) -> (info: PeerInfo)
        ensures
            info == Self::spec_plain(peer_address),
    {
        PeerInfo { peer_address, lmk: None, channel: None, encrypt: false }
    }
}

/// The set of link addresses a node has registered as peers.
///
/// An address is in the table at most once, and nothing is ever removed.
pub struct PeerTable {
    entries: Vec<LinkAddress>,
}

impl View for PeerTable {
    type V = Set<LinkAddress>;

    /// The registered addresses.
    closed spec fn view(&self) -> Set<LinkAddress> {
        self.entries@.to_set()
    }
}

impl PeerTable {
    #[verifier::type_invariant]
    spec fn inv(self) -> bool {
        self.entries@.no_duplicates()
    }

    /// A table's addresses after `address` is registered: registering a known
    /// address changes nothing.
    pub open spec fn spec_register(known: Set<LinkAddress>, address: LinkAddress) -> Set<
        LinkAddress,
    > {
        known.insert(address)
    }

    /// The empty table.
    pub fn new() -> (table: PeerTable)
        ensures
            table@ == Set::<LinkAddress>::empty(),
    {
        let table = PeerTable { entries: Vec::new() };
        assert(table.entries@.to_set() =~= Set::<LinkAddress>::empty());
        table
    }

    /// The number of registered peers.
    pub fn len(&self) -> (count: usize)
        ensures
            self@.finite(),
            count == self@.len(),
    {
        proof {
            use_type_invariant(self);
            self.entries@.unique_seq_to_set();
            vstd::seq_lib::seq_to_set_is_finite(self.entries@);
        }
        self.entries.len()
    }

    /// Whether no peer is registered.
    pub fn is_empty(&self) -> (empty: bool)
        ensures
            empty == (self@ == Set::<LinkAddress>::empty()),
    {
        proof {
            if self.entries@.len() == 0 {
                assert(self.entries@.to_set() =~= Set::<LinkAddress>::empty());
            } else {
                assert(self.entries@.to_set().contains(self.entries@[0]));
            }
        }
        self.entries.len() == 0
    }

    /// Whether `address` is registered.
    pub fn contains(&self, address: &LinkAddress) -> (known: bool)
        ensures
            known == self@.contains(*address),
    {
        let mut i: usize = 0;
        while i < self.entries.len()
            invariant
                i <= self.entries@.len(),
                forall|j: int| 0 <= j < i ==> self.entries@[j] != *address,
            decreases self.entries@.len() - i,
        {
            if self.entries[i] == *address {
                return true;
            }
            i += 1;
        }
        false
    }

    /// Registers `address`. Says whether it was new; registering an address
    /// that is already in the table is a no-op.
    pub fn register(&mut self, address: LinkAddress) -> (added: bool)
        ensures
            final(self)@ == Self::spec_register(old(self)@, address),
            added == !old(self)@.contains(address),
            final(self)@.finite(),
            final(self)@.len() == old(self)@.len() + if added { 1int } else { 0int },
    {
        proof {
            use_type_invariant(&*self);
            self.entries@.unique_seq_to_set();
            vstd::seq_lib::seq_to_set_is_finite(self.entries@);
        }
        if self.contains(&address) {
            assert(self@.insert(address) =~= self@);
            false
        } else {
            proof {
                self.entries@.lemma_push_to_set_commute(address);
                let grown = self.entries@.push(address);
                assert(grown.no_duplicates());
                grown.unique_seq_to_set();
                vstd::seq_lib::seq_to_set_is_finite(grown);
            }
            // The entries are taken out to grow, so that the table holds a
            // duplicate-free list at every point.
            let mut entries: Vec<LinkAddress> = Vec::new();
            core::mem::swap(&mut self.entries, &mut entries);
            entries.push(address);
            core::mem::swap(&mut self.entries, &mut entries);
            true
        }
    }
}

/// Registering the same address twice leaves the table as one registration
/// does: the second changes neither its contents nor its size.
pub proof fn lemma_register_twice(known: Set<LinkAddress>, address: LinkAddress)
    requires
        known.finite(),
    ensures
        PeerTable::spec_register(PeerTable::spec_register(known, address), address)
            == PeerTable::spec_register(known, address),
        PeerTable::spec_register(PeerTable::spec_register(known, address), address).len()
            == PeerTable::spec_register(known, address).len(),
        PeerTable::spec_register(known, address).contains(address),
{
    assert(known.insert(address).insert(address) =~= known.insert(address));
}

} // verus!
