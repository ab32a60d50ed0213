//! One TCP connection: its state, its two sequence spaces, the transition
//! it makes on each inbound segment and the reply that it owes.

use crate::clock::initial_sequence_number;
use crate::packet::{serialize, serialized, IpHeader, Reply, Segment};
use crate::seqnum::{advance, advance_by, lemma_advance_wraps, precedes, precedes_or_is};
use vstd::prelude::*;

verus! {

/// Hop count written into every reply.
pub const REPLY_TIME_TO_LIVE: u8 = 64;

/// Send window that a new connection advertises.
pub const INITIAL_SEND_WINDOW: u16 = 1024;

/// The states of RFC 793. Only the path `Listen`, `SynRcvd`, `Estab`,
/// `CloseWait`, `LastAck` is driven; a connection in any other state takes
/// segments without changing and without replying.
#[derive(Debug, Clone, Copy, PartialEq, Eq, Structural)]
pub enum TcpState {
    Listen,
    SynRcvd,
    Estab,
    FinWait1,
    FinWait2,
    CloseWait,
    LastAck,
    TimeWait,
    Closing,
    Closed,
}

impl Default for TcpState {
    fn default() -> (state: Self)
        ensures
            state == TcpState::Listen,
    {
        TcpState::Listen
    }
}

/// What this endpoint has sent.
#[derive(Debug, Clone, Copy, PartialEq, Eq)]
pub struct SendSequenceSpace {
    /// Oldest sequence number not yet acknowledged.
    pub una: u32,
    /// Next sequence number to send.
    pub nxt: u32,
    /// Send window.
    pub wnd: u16,
    /// Urgent pointer flag.
    pub up: bool,
    /// Sequence number of the segment used for the last window update.
    pub wl1: u32,
    /// Acknowledgment number of the segment used for the last window update.
    pub wl2: u32,
    /// Initial send sequence number.
    pub iss: u32,
}

impl SendSequenceSpace {
    /// The send side of a connection that starts from `iss`: nothing is
    /// acknowledged yet, and the SYN takes the first sequence number.
    pub open spec fn starting_at(iss: u32) -> Self {
        SendSequenceSpace {
            una: iss,
            nxt: advance(iss, 1),
            wnd: INITIAL_SEND_WINDOW,
            up: false,
            wl1: 0,
            wl2: 0,
            iss,
        }
    }

    /// `una` is not ahead of `nxt` in the order of the sequence circle.
    pub open spec fn in_order(self) -> bool {
        precedes_or_is(self.una, self.nxt)
    }

    /// The send side of a connection whose initial sequence number is `iss`.
    pub fn with_iss(iss: u32) -> (send: Self)
        ensures
            send == Self::starting_at(iss),
            send.in_order(),
    {
        SendSequenceSpace {
            una: iss,
            nxt: advance_by(iss, 1),
            wnd: INITIAL_SEND_WINDOW,
            up: false,
            wl1: 0,
            wl2: 0,
            iss,
        }
    }
}

impl Default for SendSequenceSpace {
    /// A send side whose initial sequence number is read from the system
    /// clock. Whatever the clock reads, the other fields follow from it.
    fn default() -> (send: Self)
        ensures
            send == Self::starting_at(send.iss),
    {
        SendSequenceSpace::with_iss(initial_sequence_number())
    }
}

/// What this endpoint has accepted from the peer.
#[derive(Debug, Clone, Copy, PartialEq, Eq)]
pub struct RecvSequenceSpace {
    /// Next sequence number expected from the peer.
    pub nxt: u32,
    /// Receive window.
    pub wnd: u16,
    /// Urgent pointer flag.
    pub up: bool,
    /// Initial receive sequence number.
    pub irs: u32,
}

impl RecvSequenceSpace {
    /// The receive side after the peer's SYN `tcp`: its sequence number is
    /// the initial one, and the SYN itself consumes it.
    pub open spec fn opened_by(tcp: Segment) -> Self {
        RecvSequenceSpace {
            nxt: advance(tcp.sequence_number, 1),
            wnd: tcp.window_size,
            up: false,
            irs: tcp.sequence_number,
        }
    }
}

impl Default for RecvSequenceSpace {
    fn default() -> (recv: Self)
        ensures
            recv == (RecvSequenceSpace { nxt: 0, wnd: 0, up: false, irs: 0 }),
    {
        RecvSequenceSpace { nxt: 0, wnd: 0, up: false, irs: 0 }
    }
}

/// The protocol state of one flow.
#[derive(Debug, Clone, Copy, PartialEq, Eq)]
pub struct TcpConnection {
    pub state: TcpState,
    pub send: SendSequenceSpace,
    pub recv: RecvSequenceSpace,
}

impl Default for TcpConnection {
    /// A listening connection that has seen no segment. Its initial send
    /// sequence number is read from the system clock.
    fn default() -> (conn: Self)
        ensures
            conn == (TcpConnection {
                state: TcpState::Listen,
                send: SendSequenceSpace::starting_at(conn.send.iss),
                recv: RecvSequenceSpace { nxt: 0, wnd: 0, up: false, irs: 0 },
            }),
    {
        TcpConnection {
            state: TcpState::default(),
            send: SendSequenceSpace::default(),
            recv: RecvSequenceSpace::default(),
        }
    }
}

impl TcpConnection {
    /// The connection that the peer's SYN `tcp` opens when this endpoint
    /// starts from `iss`: it listens, and has noted the peer's initial
    /// sequence number and window.
    pub open spec fn listening(tcp: Segment, iss: u32) -> Self {
        TcpConnection {
            state: TcpState::Listen,
            send: SendSequenceSpace::starting_at(iss),
            recv: RecvSequenceSpace::opened_by(tcp),
        }
    }

    /// The state that follows when `tcp` arrives.
    pub open spec fn next_state(self, tcp: Segment) -> TcpState {
        match self.state {
            TcpState::Listen if tcp.syn => TcpState::SynRcvd,
            TcpState::SynRcvd if tcp.ack => TcpState::Estab,
            TcpState::Estab if tcp.fin => TcpState::CloseWait,
            TcpState::CloseWait => TcpState::LastAck,
            unchanged => unchanged,
        }
    }

    /// How many sequence numbers of the peer `tcp` consumes: those of its
    /// payload, and one more for a FIN. Only an established connection
    /// accepts any.
    pub open spec fn consumed(self, tcp: Segment) -> int {
        if self.state == TcpState::Estab {
            tcp.payload_len + if tcp.fin { 1int } else { 0int }
        } else {
            0
        }
    }

    /// Whether the arrival of `tcp` calls for a reply.
    pub open spec fn owes_reply(self, tcp: Segment) -> bool {
        match self.state {
            TcpState::Listen => tcp.syn,
            TcpState::Estab => tcp.payload_len > 0 || tcp.fin,
            TcpState::CloseWait => true,
            _ => false,
        }
    }

    /// The connection after `tcp` has arrived.
    pub open spec fn after(self, tcp: Segment) -> Self {
        TcpConnection {
            state: self.next_state(tcp),
            send: SendSequenceSpace {
                una: if self.state == TcpState::SynRcvd && tcp.ack {
                    tcp.acknowledgment_number
                } else {
                    self.send.una
                },
                ..self.send
            },
            recv: RecvSequenceSpace {
                nxt: advance(self.recv.nxt, self.consumed(tcp)),
                ..self.recv
            },
        }
    }

    /// The reply that this connection, in the state it is in now, sends to
    /// the sender of the segment with headers `iph` and `tcp`: addresses and
    /// ports exchanged, the initial send sequence number, an acknowledgment
    /// of everything received so far, and SYN only while the handshake is
    /// under way.
    pub open spec fn reply_to(self, iph: IpHeader, tcp: Segment) -> Reply {
        Reply {
            source: iph.destination,
            destination: iph.source,
            time_to_live: REPLY_TIME_TO_LIVE,
            source_port: tcp.destination_port,
            destination_port: tcp.source_port,
            sequence_number: self.send.iss,
            acknowledgment_number: self.recv.nxt,
            syn: self.state == TcpState::SynRcvd,
            ack: true,
            window_size: self.send.wnd,
        }
    }

    /// Opens a connection for the peer's SYN `tcp`, starting from `iss`.
    pub fn with_iss(tcp: &Segment, iss: u32) -> (conn: Self)
        ensures
            conn == Self::listening(*tcp, iss),
    {
        TcpConnection {
            state: TcpState::Listen,
            send: SendSequenceSpace::with_iss(iss),
            recv: RecvSequenceSpace {
                nxt: advance_by(tcp.sequence_number, 1),
                wnd: tcp.window_size,
                up: false,
                irs: tcp.sequence_number,
            },
        }
    }

    /// Opens a connection for the peer's SYN `tcp`. The initial send sequence
    /// number is read from the system clock.
    pub fn new(tcp: &Segment) -> (conn: Self)
        ensures
            conn == Self::listening(*tcp, conn.send.iss),
    {
        Self::with_iss(tcp, initial_sequence_number())
    }

    /// Takes an inbound segment: moves to the next state, accounts for the
    /// sequence numbers that the segment consumes, and returns the bytes of
    /// the reply if one is owed. The reply is built from the state after the
    /// transition.
    pub fn on_packet(&mut self, iph: IpHeader, tcp: &Segment) -> (reply: Option<Vec<u8>>)
        ensures
            *final(self) == old(self).after(*tcp),
            reply is Some <==> old(self).owes_reply(*tcp),
            reply matches Some(bytes) ==> bytes@ == serialized(final(self).reply_to(iph, *tcp)),
    {
        let mut should_reply = false;
        match self.state {
            TcpState::Listen => {
                if tcp.syn {
                    self.state = TcpState::SynRcvd;
                    should_reply = true;
                }
            },
            TcpState::SynRcvd => {
                if tcp.ack {
                    self.state = TcpState::Estab;
                    self.send.una = tcp.acknowledgment_number;
                }
            },
            TcpState::Estab => {
                if tcp.payload_len > 0 {
                    self.recv.nxt = advance_by(self.recv.nxt, tcp.payload_len);
                    should_reply = true;
                }
                if tcp.fin {
                    self.recv.nxt = advance_by(self.recv.nxt, 1);
                    self.state = TcpState::CloseWait;
                    should_reply = true;
                }
            },
            TcpState::CloseWait => {
                self.state = TcpState::LastAck;
                should_reply = true;
            },
            _ => {},
        }
        if should_reply {
            Some(self.build_reply(&iph, tcp))
        } else {
            None
        }
    }

    /// Chooses the fields of the reply to the segment with headers `iph` and
    /// `tcp`.
    pub fn reply_segment(&self, iph: &IpHeader, tcp: &Segment) -> (reply: Reply)
        ensures
            reply == self.reply_to(*iph, *tcp),
    {
        Reply {
            source: iph.destination,
            destination: iph.source,
            time_to_live: REPLY_TIME_TO_LIVE,
            source_port: tcp.destination_port,
            destination_port: tcp.source_port,
            sequence_number: self.send.iss,
            acknowledgment_number: self.recv.nxt,
            syn: self.state == TcpState::SynRcvd,
            ack: true,
            window_size: self.send.wnd,
        }
    }

    /// Builds the bytes of the reply to the segment with headers `iph` and
    /// `tcp`: an IPv4 header followed by a TCP header, without payload.
    pub fn build_reply(&self, iph: &IpHeader, tcp: &Segment) -> (bytes: Vec<u8>)
        ensures
            bytes@ == serialized(self.reply_to(*iph, *tcp)),
    {
        let reply = self.reply_segment(iph, tcp);
        serialize(&reply)
    }
}

/// The receive side only moves forward, and by what the segment consumes:
/// the payload and the FIN of a segment that reaches an established
/// connection, and nothing in any other state. The peer's initial sequence
/// number and the window never change.
pub proof fn lemma_receive_side_advances(conn: TcpConnection, tcp: Segment)
    ensures
        conn.after(tcp).recv.nxt == advance(conn.recv.nxt, conn.consumed(tcp)),
        conn.state != TcpState::Estab ==> conn.after(tcp).recv == conn.recv,
        conn.after(tcp).recv.irs == conn.recv.irs,
        conn.after(tcp).recv.wnd == conn.recv.wnd,
        conn.after(tcp).send.iss == conn.send.iss,
        conn.after(tcp).send.nxt == conn.send.nxt,
{
}

/// A new connection has `una` behind `nxt`, and a segment keeps it so unless
/// it completes the handshake with an acknowledgment number that lies ahead
/// of `nxt`.
pub proof fn lemma_send_side_in_order(conn: TcpConnection, tcp: Segment)
    requires
        conn.send.in_order(),
        conn.state == TcpState::SynRcvd && tcp.ack ==> precedes_or_is(
            tcp.acknowledgment_number,
            conn.send.nxt,
        ),
    ensures
        conn.after(tcp).send.in_order(),
{
}

/// The SYN that opens a connection takes it from `Listen` to `SynRcvd`, and
/// the reply carries SYN and ACK and acknowledges the peer's sequence number
/// plus one.
pub proof fn lemma_syn_received(tcp: Segment, iss: u32, iph: IpHeader)
    requires
        tcp.syn,
    ensures
        TcpConnection::listening(tcp, iss).state == TcpState::Listen,
        TcpConnection::listening(tcp, iss).owes_reply(tcp),
        ({
            let conn = TcpConnection::listening(tcp, iss).after(tcp);
            let reply = conn.reply_to(iph, tcp);
            &&& conn.state == TcpState::SynRcvd
            &&& conn.recv.nxt == advance(tcp.sequence_number, 1)
            &&& reply.syn && reply.ack
            &&& reply.acknowledgment_number == advance(tcp.sequence_number, 1)
            &&& reply.sequence_number == iss
        }),
{
}

/// An ACK completes the handshake: the connection is established, notes the
/// acknowledgment number, and sends nothing.
pub proof fn lemma_handshake_completes(conn: TcpConnection, tcp: Segment)
    requires
        conn.state == TcpState::SynRcvd,
        tcp.ack,
    ensures
        conn.after(tcp).state == TcpState::Estab,
        conn.after(tcp).send.una == tcp.acknowledgment_number,
        conn.after(tcp).recv == conn.recv,
        !conn.owes_reply(tcp),
{
}

/// In an established connection a segment with `n > 0` bytes of payload and
/// no FIN moves `recv.nxt` on by exactly `n`, modulo 2^32, and is answered by
/// a plain ACK of the new `recv.nxt`; a segment with no payload and no FIN
/// changes nothing and is not answered.
pub proof fn lemma_data_acknowledged(conn: TcpConnection, tcp: Segment, iph: IpHeader)
    requires
        conn.state == TcpState::Estab,
        !tcp.fin,
    ensures
        conn.after(tcp).state == TcpState::Estab,
        conn.after(tcp).recv.nxt == advance(conn.recv.nxt, tcp.payload_len as int),
        conn.owes_reply(tcp) <==> tcp.payload_len > 0,
        tcp.payload_len == 0 ==> conn.after(tcp) == conn,
        ({
            let reply = conn.after(tcp).reply_to(iph, tcp);
            &&& reply.ack && !reply.syn
            &&& reply.acknowledgment_number == advance(conn.recv.nxt, tcp.payload_len as int)
        }),
{
}

/// In an established connection a FIN without payload moves `recv.nxt` on
/// by exactly one, takes the connection to `CloseWait` and is answered by an
/// ACK. Whatever segment comes next takes the connection to `LastAck`,
/// consumes nothing, and is answered with ACK set.
pub proof fn lemma_passive_close(conn: TcpConnection, fin: Segment, next: Segment, iph: IpHeader)
    requires
        conn.state == TcpState::Estab,
        fin.fin,
        fin.payload_len == 0,
    ensures
        conn.owes_reply(fin),
        conn.after(fin).state == TcpState::CloseWait,
        conn.after(fin).recv.nxt == advance(conn.recv.nxt, 1),
        conn.after(fin).reply_to(iph, fin).ack,
        conn.after(fin).reply_to(iph, fin).acknowledgment_number == advance(conn.recv.nxt, 1),
        conn.after(fin).owes_reply(next),
        conn.after(fin).after(next).state == TcpState::LastAck,
        conn.after(fin).after(next).recv.nxt == advance(conn.recv.nxt, 1),
        conn.after(fin).after(next).reply_to(iph, next).ack,
{
}

/// A FIN consumes one sequence number on top of the payload that comes
/// with it.
pub proof fn lemma_fin_after_payload(conn: TcpConnection, tcp: Segment)
    requires
        conn.state == TcpState::Estab,
        tcp.fin,
    ensures
        conn.after(tcp).state == TcpState::CloseWait,
        conn.after(tcp).recv.nxt == advance(conn.recv.nxt, tcp.payload_len + 1),
        conn.owes_reply(tcp),
{
}

/// When a segment carries `recv.nxt` past 2^32 - 1, counting continues from
/// 0: the new value is the smaller number, and still the later one in the
/// order of the sequence circle.
pub proof fn lemma_receive_side_wraps(conn: TcpConnection, tcp: Segment)
    requires
        0 < conn.consumed(tcp) < 0x8000_0000,
    ensures
        precedes(conn.recv.nxt, conn.after(tcp).recv.nxt),
        !precedes(conn.after(tcp).recv.nxt, conn.recv.nxt),
        conn.recv.nxt + conn.consumed(tcp) > u32::MAX ==> {
            &&& conn.after(tcp).recv.nxt == conn.recv.nxt + conn.consumed(tcp) - 0x1_0000_0000
            &&& conn.after(tcp).recv.nxt < conn.recv.nxt
        },
        conn.recv.nxt == u32::MAX && conn.consumed(tcp) == 1 ==> conn.after(tcp).recv.nxt == 0,
{
    lemma_advance_wraps(conn.recv.nxt, conn.consumed(tcp));
}

/// A connection in a state off the driven path takes any segment without
/// changing and without replying.
pub proof fn lemma_idle_states(conn: TcpConnection, tcp: Segment)
    requires
        conn.state != TcpState::Listen,
        conn.state != TcpState::SynRcvd,
        conn.state != TcpState::Estab,
        conn.state != TcpState::CloseWait,
    ensures
        conn.after(tcp) == conn,
        !conn.owes_reply(tcp),
{
}

} // verus!
