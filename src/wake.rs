//! The wake-on-LAN packet that wakes the server before the client connects.
use vstd::prelude::*;

verus! {

/// The length of a wake packet: six marker bytes and sixteen addresses.
pub const WAKE_PACKET_LEN: usize = 102;

/// Six `0xFF` bytes, then the hardware address sixteen times.
pub open spec fn wake_bytes(mac: Seq<u8>) -> Seq<u8> {
    Seq::new(102, |i: int| if i < 6 { 0xFFu8 } else { mac[(i - 6) % 6] })
}

pub fn wake_packet(mac: [u8; 6]) -> (r: Vec<u8>)
    ensures
        r@ == wake_bytes(mac@),
{
    let mut packet: Vec<u8> = Vec::with_capacity(WAKE_PACKET_LEN);
    let mut i: usize = 0;
    while i < WAKE_PACKET_LEN
        invariant
            i <= WAKE_PACKET_LEN,
            mac@.len() == 6,
            packet@.len() == i,
            forall|j: int| 0 <= j < i ==> packet@[j] == wake_bytes(mac@)[j],
        decreases WAKE_PACKET_LEN - i,
    {
        let b = if i < 6 {
            0xFFu8
        } else {
            mac[(i - 6) % 6]
        };
        packet.push(b);
        i += 1;
    }
    assert(packet@ =~= wake_bytes(mac@));
    packet
}

} // verus!
