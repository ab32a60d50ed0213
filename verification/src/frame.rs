//! The frames of the tunnel device: four bytes of packet information, two
//! of flags and two that name the protocol, and then the packet itself.

use vstd::prelude::*;
use vstd::slice::slice_subrange;

verus! {

/// Length of the packet information in front of every packet.
pub const FRAME_HEADER_LEN: usize = 4;

/// The protocol number of IPv4.
pub const IPV4_PROTOCOL: u16 = 0x0800;

/// The protocol that a frame names: its third and fourth byte as one
/// big-endian number.
pub open spec fn protocol_of(frame: Seq<u8>) -> int {
    frame[2] * 0x100 + frame[3]
}

/// The frame names IPv4 as the protocol of its packet.
pub open spec fn carries_ipv4(frame: Seq<u8>) -> bool {
    &&& frame.len() >= FRAME_HEADER_LEN
    &&& protocol_of(frame) == IPV4_PROTOCOL
}

/// The packet inside a frame: what follows the packet information.
pub open spec fn packet_of(frame: Seq<u8>) -> Seq<u8> {
    frame.subrange(FRAME_HEADER_LEN as int, frame.len() as int)
}

/// The frame that carries an IPv4 packet out: no flags, the protocol
/// number of IPv4, then the packet.
pub open spec fn framed(packet: Seq<u8>) -> Seq<u8> {
    seq![0u8, 0u8, 0x08u8, 0x00u8] + packet
}

/// The packet of an inbound frame, if the frame names IPv4 as its protocol.
/// Frames of other protocols, and frames too short to name one, carry
/// nothing for this endpoint.
pub fn ipv4_packet(frame: &[u8]) -> (packet: Option<&[u8]>)
    ensures
        match packet {
            Some(packet) => carries_ipv4(frame@) && packet@ == packet_of(frame@),
            None => !carries_ipv4(frame@),
        },
{
    if frame.len() < FRAME_HEADER_LEN {
        return None;
    }
    let protocol: u16 = frame[2] as u16 * 0x100 + frame[3] as u16;
    if protocol == IPV4_PROTOCOL {
        Some(slice_subrange(frame, FRAME_HEADER_LEN, frame.len()))
    } else {
        None
    }
}

/// Puts the packet information of IPv4 in front of an outbound packet.
pub fn frame_packet(packet: Vec<u8>) -> (frame: Vec<u8>)
    ensures
        frame@ == framed(packet@),
        carries_ipv4(frame@),
        packet_of(frame@) == packet@,
{
    let mut packet = packet;
    let mut frame: Vec<u8> = Vec::new();
    frame.push(0);
    frame.push(0);
    frame.push(0x08);
    frame.push(0x00);
    frame.append(&mut packet);
    frame
}

/// Framing and unframing undo each other.
pub proof fn lemma_framed_packet(packet: Seq<u8>)
    ensures
        carries_ipv4(framed(packet)),
        packet_of(framed(packet)) == packet,
{
}

} // verus!
