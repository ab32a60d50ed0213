//! A user-space TCP endpoint for a point-to-point tunnel device.
//!
//! The crate demultiplexes inbound IPv4/TCP segments into per-connection
//! state, drives the passive-open and passive-close part of the RFC 793 state
//! machine, and builds the segments that are owed in reply.

pub mod clock;
pub mod frame;
pub mod packet;
pub mod quad;
pub mod seqnum;
pub mod table;
pub mod tcp;

pub use packet::{IpHeader, Reply, Segment};
pub use quad::Quad;
pub use table::ConnectionTable;
pub use tcp::{RecvSequenceSpace, SendSequenceSpace, TcpConnection, TcpState};
