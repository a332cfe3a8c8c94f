//! Station and peer addressing for the broadcast radio protocol.

use vstd::prelude::*;

verus! {

/// True when every one of the six octets has all bits set — the shape of
/// the reserved broadcast value.
pub open spec fn all_bits_set(octets: [u8; 6]) -> bool {
    forall|i: int| 0 <= i < 6 ==> octets[i] == 0xffu8
}

/// The fixed-size hardware identifier of a station, read once from the radio
/// at startup and immutable afterwards.
#[derive(Clone, Copy, PartialEq, Eq, Debug)]
pub struct StationAddress {
    pub octets: [u8; 6],
}

impl StationAddress {
    /// True when this address is the reserved broadcast value.
    pub open spec fn is_broadcast_value(&self) -> bool {
        all_bits_set(self.octets)
    }
}

/// A transmission destination: either one specific station or the reserved
/// all-bits-set broadcast value. Used only as a send parameter, never stored.
#[derive(Clone, Copy, PartialEq, Eq, Debug)]
pub enum PeerAddress {
    Station(StationAddress),
    Broadcast,
}

impl PeerAddress {
    /// The six octets that go on the wire for this destination; the broadcast
    /// destination resolves to the reserved all-bits-set value.
    pub fn wire_octets(&self) -> (r: [u8; 6])
        ensures
            self matches PeerAddress::Station(a) ==> r == a.octets,
            self is Broadcast ==> all_bits_set(r),
    {
        match self {
            PeerAddress::Station(a) => a.octets,
            PeerAddress::Broadcast => [0xffu8, 0xffu8, 0xffu8, 0xffu8, 0xffu8, 0xffu8],
        }
    }
}

} // verus!
