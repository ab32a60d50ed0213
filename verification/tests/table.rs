use etherparse::{NetSlice, SlicedPacket, TransportSlice};
use trust::{ConnectionTable, IpHeader, Quad, Segment, TcpState};

fn client_header() -> IpHeader {
    IpHeader { source: [10, 0, 0, 1], destination: [10, 0, 0, 2] }
}

fn segment_from_client(sequence_number: u32) -> Segment {
    Segment {
        source_port: 50000,
        destination_port: 80,
        sequence_number,
        acknowledgment_number: 0,
        window_size: 512,
        syn: false,
        ack: false,
        fin: false,
        payload_len: 0,
    }
}

fn client_key() -> Quad {
    Quad { src: ([10, 0, 0, 1], 50000), dst: ([10, 0, 0, 2], 80) }
}

struct Flags {
    syn: bool,
    ack: bool,
    fin: bool,
    sequence_number: u32,
    acknowledgment_number: u32,
    source: ([u8; 4], u16),
    destination: ([u8; 4], u16),
}

fn flags_of(bytes: &[u8]) -> Flags {
    let packet = SlicedPacket::from_ip(bytes).unwrap();
    let Some(NetSlice::Ipv4(ip)) = packet.net else { panic!("reply is not IPv4") };
    let Some(TransportSlice::Tcp(tcp)) = packet.transport else { panic!("reply is not TCP") };
    Flags {
        syn: tcp.syn(),
        ack: tcp.ack(),
        fin: tcp.fin(),
        sequence_number: tcp.sequence_number(),
        acknowledgment_number: tcp.acknowledgment_number(),
        source: (ip.header().source(), tcp.source_port()),
        destination: (ip.header().destination(), tcp.destination_port()),
    }
}

fn open_connection(table: &mut ConnectionTable, irs: u32) -> u32 {
    let syn = Segment { syn: true, ..segment_from_client(irs) };
    let reply = table.dispatch(client_key(), client_header(), &syn).unwrap();
    let iss = flags_of(&reply).sequence_number;
    let ack = Segment {
        ack: true,
        acknowledgment_number: iss.wrapping_add(1),
        ..segment_from_client(irs.wrapping_add(1))
    };
    assert!(table.dispatch(client_key(), client_header(), &ack).is_none());
    iss
}

#[test]
fn new_table_is_empty() {
    let table = ConnectionTable::new();
    assert_eq!(table.len(), 0);
    assert!(!table.contains(&client_key()));
    assert!(table.get(&client_key()).is_none());
}

#[test]
fn handshake() {
    let mut table = ConnectionTable::new();
    let syn = Segment { syn: true, ..segment_from_client(7000) };
    let reply = table.dispatch(client_key(), client_header(), &syn).unwrap();
    assert_eq!(table.len(), 1);
    assert!(table.contains(&client_key()));
    let conn = *table.get(&client_key()).unwrap();
    assert_eq!(conn.state, TcpState::SynRcvd);
    assert_eq!(conn.recv.irs, 7000);
    assert_eq!(conn.recv.nxt, 7001);
    assert_eq!(conn.recv.wnd, 512);
    assert_eq!(conn.send.una, conn.send.iss);
    assert_eq!(conn.send.nxt, conn.send.iss.wrapping_add(1));
    let flags = flags_of(&reply);
    assert!(flags.syn && flags.ack && !flags.fin);
    assert_eq!(flags.acknowledgment_number, 7001);
    assert_eq!(flags.sequence_number, conn.send.iss);
    assert_eq!(flags.source, ([10, 0, 0, 2], 80));
    assert_eq!(flags.destination, ([10, 0, 0, 1], 50000));
}

#[test]
fn handshake_completion() {
    let mut table = ConnectionTable::new();
    let syn = Segment { syn: true, ..segment_from_client(7000) };
    let reply = table.dispatch(client_key(), client_header(), &syn).unwrap();
    let iss = flags_of(&reply).sequence_number;
    let ack = Segment { ack: true, acknowledgment_number: iss.wrapping_add(1), ..segment_from_client(7001) };
    assert!(table.dispatch(client_key(), client_header(), &ack).is_none());
    assert_eq!(table.len(), 1);
    let conn = table.get(&client_key()).unwrap();
    assert_eq!(conn.state, TcpState::Estab);
    assert_eq!(conn.send.una, iss.wrapping_add(1));
    assert_eq!(conn.recv.nxt, 7001);
}

#[test]
fn second_syn_does_not_open_a_second_connection() {
    let mut table = ConnectionTable::new();
    let syn = Segment { syn: true, ..segment_from_client(7000) };
    table.dispatch(client_key(), client_header(), &syn).unwrap();
    let first = *table.get(&client_key()).unwrap();
    assert!(table.dispatch(client_key(), client_header(), &Segment { sequence_number: 9, ..syn }).is_none());
    assert_eq!(table.len(), 1);
    assert_eq!(*table.get(&client_key()).unwrap(), first);
}

#[test]
fn data_path() {
    let mut table = ConnectionTable::new();
    let iss = open_connection(&mut table, 7000);
    let data = Segment { ack: true, payload_len: 100, ..segment_from_client(7001) };
    let reply = table.dispatch(client_key(), client_header(), &data).unwrap();
    let conn = table.get(&client_key()).unwrap();
    assert_eq!(conn.state, TcpState::Estab);
    assert_eq!(conn.recv.nxt, 7101);
    let flags = flags_of(&reply);
    assert!(flags.ack && !flags.syn && !flags.fin);
    assert_eq!(flags.acknowledgment_number, 7101);
    assert_eq!(flags.sequence_number, iss);
    let empty = Segment { ack: true, ..segment_from_client(7101) };
    assert!(table.dispatch(client_key(), client_header(), &empty).is_none());
    assert_eq!(table.get(&client_key()).unwrap().recv.nxt, 7101);
}

#[test]
fn passive_close() {
    let mut table = ConnectionTable::new();
    open_connection(&mut table, 7000);
    let fin = Segment { ack: true, fin: true, ..segment_from_client(7001) };
    let reply = table.dispatch(client_key(), client_header(), &fin).unwrap();
    let conn = table.get(&client_key()).unwrap();
    assert_eq!(conn.state, TcpState::CloseWait);
    assert_eq!(conn.recv.nxt, 7002);
    let flags = flags_of(&reply);
    assert!(flags.ack && !flags.syn);
    assert_eq!(flags.acknowledgment_number, 7002);
    let next = Segment { ack: true, ..segment_from_client(7002) };
    let reply = table.dispatch(client_key(), client_header(), &next).unwrap();
    assert_eq!(table.get(&client_key()).unwrap().state, TcpState::LastAck);
    assert!(flags_of(&reply).ack);
    assert!(table.dispatch(client_key(), client_header(), &next).is_none());
    assert_eq!(table.get(&client_key()).unwrap().state, TcpState::LastAck);
    assert_eq!(table.len(), 1);
}

#[test]
fn unknown_flow_without_syn() {
    let mut table = ConnectionTable::new();
    let loaded = Segment { ack: true, fin: true, payload_len: 10, ..segment_from_client(7000) };
    assert!(table.dispatch(client_key(), client_header(), &loaded).is_none());
    assert_eq!(table.len(), 0);
    assert!(!table.contains(&client_key()));
    open_connection(&mut table, 1);
    let other = Quad { src: ([10, 0, 0, 9], 50000), dst: ([10, 0, 0, 2], 80) };
    assert!(table.dispatch(other, client_header(), &loaded).is_none());
    assert_eq!(table.len(), 1);
    assert!(!table.contains(&other));
}

#[test]
fn key_symmetry() {
    let mut table = ConnectionTable::new();
    let forth = Segment { syn: true, ..segment_from_client(7000) };
    let forth_key = Quad::from_packet(client_header(), &forth);
    let back_header = IpHeader { source: [10, 0, 0, 2], destination: [10, 0, 0, 1] };
    let back = Segment { source_port: 80, destination_port: 50000, sequence_number: 9000, ..forth };
    let back_key = Quad::from_packet(back_header, &back);
    assert_ne!(forth_key, back_key);
    assert_eq!(back_key, Quad { src: forth_key.dst, dst: forth_key.src });
    table.dispatch(forth_key, client_header(), &forth).unwrap();
    table.dispatch(back_key, back_header, &back).unwrap();
    assert_eq!(table.len(), 2);
    assert_eq!(table.get(&forth_key).unwrap().recv.irs, 7000);
    assert_eq!(table.get(&back_key).unwrap().recv.irs, 9000);
    let ack = Segment { ack: true, ..segment_from_client(7001) };
    table.dispatch(forth_key, client_header(), &ack);
    assert_eq!(table.get(&forth_key).unwrap().state, TcpState::Estab);
    assert_eq!(table.get(&back_key).unwrap().state, TcpState::SynRcvd);
}

#[test]
fn flows_that_differ_in_one_byte_are_kept_apart() {
    let mut table = ConnectionTable::new();
    let syn = Segment { syn: true, ..segment_from_client(1) };
    let keys = [
        client_key(),
        Quad { src: ([10, 0, 0, 1], 50001), dst: ([10, 0, 0, 2], 80) },
        Quad { src: ([10, 0, 0, 1], 50000), dst: ([10, 0, 0, 2], 81) },
        Quad { src: ([10, 0, 1, 1], 50000), dst: ([10, 0, 0, 2], 80) },
        Quad { src: ([10, 0, 0, 1], 50000), dst: ([11, 0, 0, 2], 80) },
    ];
    for (count, key) in keys.iter().enumerate() {
        assert!(!table.contains(key));
        table.dispatch(*key, client_header(), &syn).unwrap();
        assert_eq!(table.len(), count + 1);
    }
    for key in keys.iter() {
        assert!(table.contains(key));
    }
}

#[test]
fn sequence_wraparound() {
    let mut table = ConnectionTable::new();
    open_connection(&mut table, u32::MAX - 1);
    assert_eq!(table.get(&client_key()).unwrap().recv.nxt, u32::MAX);
    let data = Segment { payload_len: 1, ..segment_from_client(u32::MAX) };
    let reply = table.dispatch(client_key(), client_header(), &data).unwrap();
    assert_eq!(table.get(&client_key()).unwrap().recv.nxt, 0);
    assert_eq!(flags_of(&reply).acknowledgment_number, 0);
    assert!(trust::seqnum::wrapping_lt(u32::MAX, 0));
    assert!(!trust::seqnum::wrapping_lt(0, u32::MAX));
}

#[test]
fn syn_with_largest_sequence_number() {
    let mut table = ConnectionTable::new();
    let syn = Segment { syn: true, ..segment_from_client(u32::MAX) };
    let reply = table.dispatch(client_key(), client_header(), &syn).unwrap();
    assert_eq!(flags_of(&reply).acknowledgment_number, 0);
    assert_eq!(table.get(&client_key()).unwrap().recv.nxt, 0);
}
