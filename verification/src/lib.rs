//! Serial telemetry ingestion engine.
//!
//! The library recovers delimiter-framed, byte-stuffed packets from a raw
//! byte stream, validates their layout, decodes type-tagged telemetry
//! values, and drives the connection state machine that governs when the
//! engine talks to its transport.
use vstd::prelude::*;

pub mod codec_laws;
pub mod error;
pub mod framing;
pub mod name;
pub mod packet;
pub mod text;
pub mod timestamp;
pub mod value;
pub mod worker;

pub use error::{PacketReadError, TransportError};
pub use framing::decode_frame;
pub use name::MetricName;
pub use packet::{Metric, Packet, SystemPacket, packet_from_chunk, parse_packet};
pub use timestamp::{RebootDetector, Timestamp};
pub use value::{ManyValues, MetricValue, MetricValueError, OneValue, ScalarKind};
pub use worker::{
    CommandAction,
    ConnectAction,
    ReadAction,
    RobotCommand,
    SerialWorkerCommand,
    SerialWorkerState,
    WorkerMachine,
};

verus! {

} // verus!
