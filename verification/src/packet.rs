//! The values that cross the boundary to the packet parsing and building
//! library: what is read from an inbound segment, and what is written into
//! an outbound one.

use etherparse::{NetSlice, PacketBuilder, SlicedPacket, TcpHeader, TransportSlice};
use vstd::prelude::*;

verus! {

/// The addressing of an IPv4 header: the two addresses as their four octets.
#[derive(Debug, Clone, Copy, PartialEq, Eq)]
pub struct IpHeader {
    pub source: [u8; 4],
    pub destination: [u8; 4],
}

/// The fields of an inbound TCP segment that the state machine reads.
#[derive(Debug, Clone, Copy, PartialEq, Eq)]
pub struct Segment {
    pub source_port: u16,
    pub destination_port: u16,
    pub sequence_number: u32,
    pub acknowledgment_number: u32,
    pub window_size: u16,
    pub syn: bool,
    pub ack: bool,
    pub fin: bool,
    /// Number of payload bytes behind the TCP header.
    pub payload_len: usize,
}

/// An outbound control segment: everything that is chosen when a reply is
/// built. It carries no payload, and every flag but SYN and ACK is clear.
#[derive(Debug, Clone, Copy, PartialEq, Eq)]
pub struct Reply {
    pub source: [u8; 4],
    pub destination: [u8; 4],
    pub time_to_live: u8,
    pub source_port: u16,
    pub destination_port: u16,
    pub sequence_number: u32,
    pub acknowledgment_number: u32,
    pub syn: bool,
    pub ack: bool,
    pub window_size: u16,
}

/// What slicing `data` as an IP packet yields: the addressing and the TCP
/// fields if `data` is a well-formed IPv4 packet that carries a TCP segment,
/// `None` for anything else.
pub uninterp spec fn sliced_ipv4_tcp(data: Seq<u8>) -> Option<(IpHeader, Segment)>;

/// The bytes of the IPv4 header and the TCP header, checksums included, of
/// the payload-free segment that `reply` describes.
pub uninterp spec fn serialized(reply: Reply) -> Seq<u8>;

/// Slices `data` with `etherparse::SlicedPacket::from_ip` and copies out the
/// fields of the IPv4 and TCP headers.
///
/// Trusted: the result is a function of the bytes of `data` alone. It is
/// `None` when the slicing fails, when the network layer is not IPv4 and when
/// the transport layer is not TCP.
#[verifier::external_body]
pub(crate) fn slice_ipv4_tcp(data: &[u8]) -> (parsed: Option<(IpHeader, Segment)>)
    ensures
        parsed == sliced_ipv4_tcp(data@),
{
    let packet = SlicedPacket::from_ip(data).ok()?;
    let (NetSlice::Ipv4(ip), TransportSlice::Tcp(tcp)) = (packet.net?, packet.transport?) else { return None };
    let header = IpHeader { source: ip.header().source(), destination: ip.header().destination() };
    let segment = Segment {
        source_port: tcp.source_port(),
        destination_port: tcp.destination_port(),
        sequence_number: tcp.sequence_number(),
        acknowledgment_number: tcp.acknowledgment_number(),
        window_size: tcp.window_size(),
        syn: tcp.syn(),
        ack: tcp.ack(),
        fin: tcp.fin(),
        payload_len: tcp.payload().len(),
    };
    Some((header, segment))
}

/// Writes `reply` with `etherparse::PacketBuilder`: an IPv4 header followed
/// by a TCP header made by `etherparse::TcpHeader::new`, with no payload.
///
/// Trusted: the bytes written are a function of the fields of `reply` alone.
/// The write cannot fail: the two headers take 40 bytes, which fits the
/// length field of IPv4, and a `Vec` accepts every write.
#[verifier::external_body]
pub(crate) fn serialize(reply: &Reply) -> (bytes: Vec<u8>)
    ensures
        bytes@ == serialized(*reply),
{
    let mut header = TcpHeader::new(
        reply.source_port,
        reply.destination_port,
        reply.sequence_number,
        reply.window_size,
    );
    header.acknowledgment_number = reply.acknowledgment_number;
    header.syn = reply.syn;
    header.ack = reply.ack;
    let builder = PacketBuilder::ipv4(reply.source, reply.destination, reply.time_to_live)
        .tcp_header(header);
    let mut bytes = Vec::with_capacity(builder.size(0));
    builder.write(&mut bytes, &[]).expect("a payload-free segment always fits");
    bytes
}

} // verus!
