//! The key that identifies a connection: the four-tuple of an inbound
//! segment.

use crate::packet::{IpHeader, Segment};
use vstd::prelude::*;

verus! {

/// The four-tuple of a flow, as seen on an inbound segment: the peer's
/// endpoint is `src`, this endpoint is `dst`. A key is directional.
#[derive(Debug, PartialEq, Eq, Hash, Clone, Copy)]
pub struct Quad {
    pub src: ([u8; 4], u16),
    pub dst: ([u8; 4], u16),
}

/// The four octets of an address read as one big-endian number.
pub open spec fn address_value(octets: [u8; 4]) -> int {
    ((octets@[0] * 0x100 + octets@[1]) * 0x100 + octets@[2]) * 0x100 + octets@[3]
}

/// Two numbers written in a positional system agree only if they agree in
/// the last digit and in what stands before it.
proof fn lemma_digits(high_a: int, low_a: int, high_b: int, low_b: int, base: int)
    by (nonlinear_arith)
    requires
        0 <= low_a < base,
        0 <= low_b < base,
        high_a * base + low_a == high_b * base + low_b,
    ensures
        high_a == high_b,
        low_a == low_b,
{
}

/// Addresses with the same value are the same address.
pub proof fn lemma_address_value_injective(a: [u8; 4], b: [u8; 4])
    requires
        address_value(a) == address_value(b),
    ensures
        a == b,
{
    assert(a@ =~= b@);
}

fn address_number(octets: &[u8; 4]) -> (value: u128)
    ensures
        value == address_value(*octets),
        value < 0x1_0000_0000,
{
    ((octets[0] as u128 * 0x100 + octets[1] as u128) * 0x100 + octets[2] as u128) * 0x100
        + octets[3] as u128
}

impl Quad {
    /// The key of the flow that a segment with this addressing belongs to.
    pub open spec fn of(iph: IpHeader, tcp: Segment) -> Quad {
        Quad { src: (iph.source, tcp.source_port), dst: (iph.destination, tcp.destination_port) }
    }

    /// The key with the two endpoints exchanged: that of the segments that
    /// flow the other way.
    pub open spec fn reversed(self) -> Quad {
        Quad { src: self.dst, dst: self.src }
    }

    /// The twelve bytes of the key read as one number, by which the
    /// connection table files its entries.
    pub open spec fn index(self) -> int {
        ((address_value(self.src.0) * 0x1_0000 + self.src.1) * 0x1_0000_0000 + address_value(
            self.dst.0,
        )) * 0x1_0000 + self.dst.1
    }

    /// Builds the key of an inbound segment from its two headers.
    pub fn from_packet(iph: IpHeader, tcp: &Segment) -> (quad: Quad)
        ensures
            quad == Quad::of(iph, *tcp),
    {
        Quad { src: (iph.source, tcp.source_port), dst: (iph.destination, tcp.destination_port) }
    }

    /// Computes the number under which the table files this key.
    pub fn table_index(&self) -> (index: u128)
        ensures
            index == self.index(),
            index < 0x1_0000_0000_0000_0000_0000_0000,
    {
        let source: u128 = address_number(&self.src.0);
        let destination: u128 = address_number(&self.dst.0);
        ((source * 0x1_0000 + self.src.1 as u128) * 0x1_0000_0000 + destination) * 0x1_0000
            + self.dst.1 as u128
    }

    /// Keys with equal bytes are one key to the table, and keys that differ
    /// in any byte are filed apart.
    pub proof fn lemma_index_injective(self, other: Quad)
        ensures
            self.index() == other.index() <==> self == other,
    {
        if self.index() == other.index() {
            let (sa, sb) = (address_value(self.src.0), address_value(other.src.0));
            let (da, db) = (address_value(self.dst.0), address_value(other.dst.0));
            lemma_digits(
                (sa * 0x1_0000 + self.src.1) * 0x1_0000_0000 + da,
                self.dst.1 as int,
                (sb * 0x1_0000 + other.src.1) * 0x1_0000_0000 + db,
                other.dst.1 as int,
                0x1_0000,
            );
            lemma_digits(
                sa * 0x1_0000 + self.src.1,
                da,
                sb * 0x1_0000 + other.src.1,
                db,
                0x1_0000_0000,
            );
            lemma_digits(sa, self.src.1 as int, sb, other.src.1 as int, 0x1_0000);
            lemma_address_value_injective(self.src.0, other.src.0);
            lemma_address_value_injective(self.dst.0, other.dst.0);
        }
    }

    /// A key is directional: the segments of the two directions between two
    /// different endpoints have different keys.
    pub proof fn lemma_directional(self)
        requires
            self.src != self.dst,
        ensures
            self.reversed() != self,
            self.reversed().index() != self.index(),
            self.reversed().reversed() == self,
    {
        self.lemma_index_injective(self.reversed());
    }
}

} // verus!
