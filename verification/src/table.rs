//! The connection table: every live connection under the key of its flow,
//! and the one way in for inbound segments.

use crate::frame::{carries_ipv4, frame_packet, framed, ipv4_packet, packet_of};
use crate::packet::{serialized, slice_ipv4_tcp, sliced_ipv4_tcp, IpHeader, Segment};
use crate::quad::Quad;
use crate::seqnum::advance;
use crate::tcp::{lemma_handshake_completes, lemma_syn_received, TcpConnection, TcpState};
use std::collections::hash_map::Entry;
use std::collections::HashMap;
use vstd::prelude::*;
use vstd::std_specs::hash::*;

verus! {

broadcast use vstd::std_specs::hash::group_hash_axioms;

/// The bytes of an optional packet.
pub open spec fn bytes_of(packet: Option<Vec<u8>>) -> Option<Seq<u8>> {
    match packet {
        Some(bytes) => Some(bytes@),
        None => None,
    }
}

/// How the table changes when the segment `tcp` arrives under `key`: a known
/// flow takes the segment; an unknown flow is opened by a SYN, and the new
/// connection takes that SYN at once; any other segment of an unknown flow
/// is dropped. No entry but that of `key` changes.
pub open spec fn table_step(
    before: Map<Quad, TcpConnection>,
    after: Map<Quad, TcpConnection>,
    key: Quad,
    tcp: Segment,
) -> bool {
    if before.contains_key(key) {
        after == before.insert(key, before[key].after(tcp))
    } else if tcp.syn {
        &&& after == before.insert(key, after[key])
        &&& after[key] == TcpConnection::listening(tcp, after[key].send.iss).after(tcp)
    } else {
        after == before
    }
}

/// The packet that goes back when the segment with headers `iph` and `tcp`
/// arrives under `key`: the reply of the connection of `key` as it is after
/// the segment, where that connection owes one.
pub open spec fn reply_owed(
    before: Map<Quad, TcpConnection>,
    after: Map<Quad, TcpConnection>,
    key: Quad,
    iph: IpHeader,
    tcp: Segment,
) -> Option<Seq<u8>> {
    let owed = if before.contains_key(key) {
        before[key].owes_reply(tcp)
    } else {
        tcp.syn
    };
    if owed {
        Some(serialized(after[key].reply_to(iph, tcp)))
    } else {
        None
    }
}

/// The headers of the IPv4/TCP segment that an inbound frame carries, if
/// it carries one.
pub open spec fn inbound_segment(frame: Seq<u8>) -> Option<(IpHeader, Segment)> {
    if carries_ipv4(frame) {
        sliced_ipv4_tcp(packet_of(frame))
    } else {
        None
    }
}

/// All live connections, each under the key of its flow.
pub struct ConnectionTable {
    conns: HashMap<u128, TcpConnection>,
}

impl View for ConnectionTable {
    type V = Map<Quad, TcpConnection>;

    closed spec fn view(&self) -> Map<Quad, TcpConnection> {
        Map::new(
            |key: Quad| self.conns@.contains_key(key.index() as u128),
            |key: Quad| self.conns@[key.index() as u128],
        )
    }
}

impl Default for ConnectionTable {
    fn default() -> (table: Self)
        ensures
            table@ == Map::<Quad, TcpConnection>::empty(),
            table.wf(),
    {
        ConnectionTable::new()
    }
}

impl ConnectionTable {
    /// Every entry is filed under the number of some key. A table is made
    /// so and stays so.
    pub closed spec fn wf(&self) -> bool {
        forall|index: u128| #[trigger]
            self.conns@.contains_key(index) ==> exists|key: Quad| key.index() == index
    }

    /// A table without connections.
    pub fn new() -> (table: Self)
        ensures
            table@ == Map::<Quad, TcpConnection>::empty(),
            table.wf(),
    {
        let table = ConnectionTable { conns: HashMap::new() };
        assert(table@ =~= Map::<Quad, TcpConnection>::empty());
        table
    }

    /// The number of live connections.
    pub fn len(&self) -> (count: usize)
        ensures
            self.wf() ==> count == self@.len(),
    {
        proof {
            if self.wf() {
                self.lemma_entries_counted();
            }
        }
        self.conns.len()
    }

    /// In a well-formed table the keys and the numbers they are filed under
    /// match one to one.
    proof fn lemma_entries_counted(&self)
        requires
            self.wf(),
        ensures
            self@.dom().finite(),
            self@.len() == self.conns@.len(),
    {
        let key_of = |index: u128| choose|key: Quad| key.index() == index;
        let indices = self.conns@.dom();
        assert forall|a: u128, b: u128|
            indices.contains(a) && indices.contains(b) && #[trigger] key_of(a) == #[trigger] key_of(
                b,
            ) implies a == b by {
            assert(self.conns@.contains_key(a) && self.conns@.contains_key(b));
        }
        assert forall|key: Quad| self@.dom().contains(key) implies indices.map(key_of).contains(
            key,
        ) by {
            let index = key.index() as u128;
            assert(indices.contains(index));
            key.lemma_index_injective(key_of(index));
        }
        assert forall|key: Quad| indices.map(key_of).contains(key) implies self@.dom().contains(
            key,
        ) by {
            let index = choose|index: u128| indices.contains(index) && key == key_of(index);
            assert(self.conns@.contains_key(index));
        }
        assert(indices.map(key_of) =~= self@.dom());
        vstd::set_lib::lemma_map_size(indices, self@.dom(), key_of);
    }

    /// Whether a connection is filed under `key`.
    pub fn contains(&self, key: &Quad) -> (found: bool)
        ensures
            found == self@.contains_key(*key),
    {
        let index: u128 = key.table_index();
        self.conns.contains_key(&index)
    }

    /// The connection filed under `key`.
    pub fn get(&self, key: &Quad) -> (conn: Option<&TcpConnection>)
        ensures
            match conn {
                Some(conn) => self@.contains_key(*key) && *conn == self@[*key],
                None => !self@.contains_key(*key),
            },
    {
        let index: u128 = key.table_index();
        self.conns.get(&index)
    }

    /// Hands the segment with headers `iph` and `tcp` to the connection of
    /// `key`, opening it first if the flow is new and the segment is a SYN,
    /// and returns the reply of that connection. The initial send sequence
    /// number of a new connection is read from the system clock.
    pub fn dispatch(&mut self, key: Quad, iph: IpHeader, tcp: &Segment) -> (reply: Option<Vec<u8>>)
        ensures
            table_step(old(self)@, final(self)@, key, *tcp),
            bytes_of(reply) == reply_owed(old(self)@, final(self)@, key, iph, *tcp),
            old(self).wf() ==> final(self).wf(),
    {
        let index: u128 = key.table_index();
        let ghost before = self.conns@;
        let reply = match self.conns.entry(index) {
            Entry::Occupied(mut occupied) => occupied.get_mut().on_packet(iph, tcp),
            Entry::Vacant(vacant) => {
                if tcp.syn {
                    let mut conn = TcpConnection::new(tcp);
                    let response = conn.on_packet(iph, tcp);
                    vacant.insert(conn);
                    response
                } else {
                    None
                }
            },
        };
        proof {
            assert forall|other: Quad| other != key implies other.index() as u128 != index by {
                key.lemma_index_injective(other);
            }
            if before.contains_key(index) {
                assert(self@ =~= old(self)@.insert(key, old(self)@[key].after(*tcp)));
            } else if tcp.syn {
                assert(self@ =~= old(self)@.insert(key, self@[key]));
            } else {
                assert(self@ =~= old(self)@);
            }
        }
        reply
    }

    /// Takes one frame from the tunnel device and returns the frame to send
    /// back, if any. A frame that does not name IPv4, or whose packet is not
    /// a well-formed IPv4 packet with a TCP segment, leaves the table as it
    /// is. Any other frame is dispatched under the key of its segment, and
    /// the reply comes back framed.
    pub fn process_frame(&mut self, frame: &[u8]) -> (answer: Option<Vec<u8>>)
        ensures
            match inbound_segment(frame@) {
                Some((iph, tcp)) => {
                    &&& table_step(old(self)@, final(self)@, Quad::of(iph, tcp), tcp)
                    &&& bytes_of(answer) == match reply_owed(
                        old(self)@,
                        final(self)@,
                        Quad::of(iph, tcp),
                        iph,
                        tcp,
                    ) {
                        Some(packet) => Some(framed(packet)),
                        None => None,
                    }
                },
                None => final(self)@ == old(self)@ && answer is None,
            },
            old(self).wf() ==> final(self).wf(),
    {
        let packet = match ipv4_packet(frame) {
            Some(packet) => packet,
            None => { return None; },
        };
        let (iph, tcp) = match slice_ipv4_tcp(packet) {
            Some(headers) => headers,
            None => { return None; },
        };
        let key = Quad::from_packet(iph, &tcp);
        match self.dispatch(key, iph, &tcp) {
            Some(reply) => Some(frame_packet(reply)),
            None => None,
        }
    }
}

/// A SYN for a flow that the table does not hold opens exactly one
/// connection, under the key of the flow: it starts in `Listen`, takes the
/// SYN at once and so stands in `SynRcvd`, and its reply carries SYN and ACK
/// and acknowledges the peer's sequence number plus one.
pub proof fn lemma_handshake(
    before: Map<Quad, TcpConnection>,
    after: Map<Quad, TcpConnection>,
    key: Quad,
    iph: IpHeader,
    tcp: Segment,
)
    requires
        !before.contains_key(key),
        tcp.syn,
        table_step(before, after, key, tcp),
    ensures
        after.dom() == before.dom().insert(key),
        forall|other: Quad| other != key && before.contains_key(other) ==> after[other] == before[other],
        TcpConnection::listening(tcp, after[key].send.iss).state == TcpState::Listen,
        after[key].state == TcpState::SynRcvd,
        after[key].recv.nxt == advance(tcp.sequence_number, 1),
        reply_owed(before, after, key, iph, tcp) == Some(serialized(after[key].reply_to(iph, tcp))),
        after[key].reply_to(iph, tcp).syn,
        after[key].reply_to(iph, tcp).ack,
        after[key].reply_to(iph, tcp).acknowledgment_number == advance(tcp.sequence_number, 1),
{
    lemma_syn_received(tcp, after[key].send.iss, iph);
}

/// After the handshake has begun, an ACK under the same key establishes the
/// connection and is not answered. No entry appears or disappears.
pub proof fn lemma_handshake_completion(
    start: Map<Quad, TcpConnection>,
    opened: Map<Quad, TcpConnection>,
    established: Map<Quad, TcpConnection>,
    key: Quad,
    iph: IpHeader,
    syn: Segment,
    ack: Segment,
)
    requires
        !start.contains_key(key),
        syn.syn,
        table_step(start, opened, key, syn),
        ack.ack,
        table_step(opened, established, key, ack),
    ensures
        established.dom() == opened.dom(),
        established[key].state == TcpState::Estab,
        established[key].send.una == ack.acknowledgment_number,
        established[key].recv == opened[key].recv,
        reply_owed(opened, established, key, iph, ack) is None,
{
    lemma_syn_received(syn, opened[key].send.iss, iph);
    lemma_handshake_completes(opened[key], ack);
    assert(established.dom() =~= opened.dom());
}

/// A segment without SYN for a flow that the table does not hold is dropped:
/// no entry is made and nothing is sent.
pub proof fn lemma_unknown_flow_dropped(
    before: Map<Quad, TcpConnection>,
    after: Map<Quad, TcpConnection>,
    key: Quad,
    iph: IpHeader,
    tcp: Segment,
)
    requires
        !before.contains_key(key),
        !tcp.syn,
        table_step(before, after, key, tcp),
    ensures
        after == before,
        !after.contains_key(key),
        reply_owed(before, after, key, iph, tcp) is None,
{
}

/// A segment of a known flow goes to the connection of its key, and to no
/// other: that connection makes its transition, and every other entry stays
/// as it was.
pub proof fn lemma_known_flow_forwarded(
    before: Map<Quad, TcpConnection>,
    after: Map<Quad, TcpConnection>,
    key: Quad,
    iph: IpHeader,
    tcp: Segment,
)
    requires
        before.contains_key(key),
        table_step(before, after, key, tcp),
    ensures
        after.dom() == before.dom(),
        after[key] == before[key].after(tcp),
        forall|other: Quad| other != key && before.contains_key(other) ==> after[other] == before[other],
        reply_owed(before, after, key, iph, tcp) is Some <==> before[key].owes_reply(tcp),
{
    assert(after.dom() =~= before.dom());
}

/// The key is directional. The SYNs of the two directions between two
/// different endpoints have different keys, and open two connections that
/// stand side by side in the table.
pub proof fn lemma_directions_kept_apart(
    start: Map<Quad, TcpConnection>,
    one: Map<Quad, TcpConnection>,
    both: Map<Quad, TcpConnection>,
    iph: IpHeader,
    forth: Segment,
    back: Segment,
)
    requires
        (iph.source, forth.source_port) != (iph.destination, forth.destination_port),
        back.source_port == forth.destination_port,
        back.destination_port == forth.source_port,
        forth.syn,
        back.syn,
        !start.contains_key(Quad::of(iph, forth)),
        !start.contains_key(Quad::of(iph, forth).reversed()),
        table_step(start, one, Quad::of(iph, forth), forth),
        table_step(
            one,
            both,
            Quad::of(IpHeader { source: iph.destination, destination: iph.source }, back),
            back,
        ),
    ensures
        Quad::of(IpHeader { source: iph.destination, destination: iph.source }, back) == Quad::of(
            iph,
            forth,
        ).reversed(),
        Quad::of(iph, forth).reversed() != Quad::of(iph, forth),
        Quad::of(iph, forth).reversed().index() != Quad::of(iph, forth).index(),
        both.dom() == start.dom().insert(Quad::of(iph, forth)).insert(
            Quad::of(iph, forth).reversed(),
        ),
        both[Quad::of(iph, forth)] == one[Quad::of(iph, forth)],
        start.dom().finite() ==> both.len() == start.len() + 2,
{
    let key = Quad::of(iph, forth);
    key.lemma_directional();
    assert(both.dom() =~= start.dom().insert(key).insert(key.reversed()));
}

} // verus!
