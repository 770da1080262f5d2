//! Failure taxonomy of the read/decode path.
//!
//! Nothing here stops the ingestion loop: a transport timeout is silent,
//! a disconnect drops the session, and every malformed frame or packet
//! is discarded while the loop continues.
use vstd::prelude::*;

use crate::value::MetricValueError;

verus! {

/// What went wrong while reading bytes from the transport.
#[derive(Debug, Clone, PartialEq, Eq)]
pub enum TransportError {
    /// No data arrived within the read timeout: expected and harmless.
    TimedOut,
    /// The device vanished (the port read failed for good).
    SerialPortDisconnected,
    /// A delimited chunk was not valid byte stuffing; the raw bytes are
    /// kept for diagnostics.
    MalformedCOBS(Vec<u8>),
}

/// Mathematical shape of a transport error.
pub enum TransportErrorModel {
    TimedOut,
    SerialPortDisconnected,
    MalformedCOBS(Seq<u8>),
}

impl View for TransportError {
    type V = TransportErrorModel;

    open spec fn view(&self) -> TransportErrorModel {
        match self {
            TransportError::TimedOut => TransportErrorModel::TimedOut,
            TransportError::SerialPortDisconnected => TransportErrorModel::SerialPortDisconnected,
            TransportError::MalformedCOBS(raw) => TransportErrorModel::MalformedCOBS(raw@),
        }
    }
}

impl TransportError {
    /// Classify an I/O failure of the transport: a timeout is the only
    /// transient kind; every other failure means the device is gone.
    pub fn from_io_kind(timed_out: bool) -> (r: Self)
        ensures
            timed_out ==> r@ == TransportErrorModel::TimedOut,
            !timed_out ==> r@ == TransportErrorModel::SerialPortDisconnected,
    {
        if timed_out {
            TransportError::TimedOut
        } else {
            TransportError::SerialPortDisconnected
        }
    }
}

/// What went wrong while turning one frame into a metric.
#[derive(Debug, Clone, PartialEq, Eq)]
pub enum PacketReadError {
    /// The packet body lacked a NUL-delimited section; the index names
    /// the first missing section and the body is kept for diagnostics.
    PoorLayout { section: usize, packet: Vec<u8> },
    /// The trailing declared length disagreed with the body, or the
    /// frame was too short to carry its fixed fields (`expected` is
    /// then `None`).
    BadPacketLength { expected: Option<usize>, got: usize },
    /// The value bytes did not fit the declared type tag.
    MetricValue(MetricValueError),
    /// The transport failed before a frame was read.
    Transport(TransportError),
}

/// Mathematical shape of a packet read error.
pub enum PacketErrorModel {
    PoorLayout { section: int, packet: Seq<u8> },
    BadPacketLength { expected: Option<int>, got: int },
    BadValue { expected: int, got: int },
    Transport(TransportErrorModel),
}

impl View for PacketReadError {
    type V = PacketErrorModel;

    open spec fn view(&self) -> PacketErrorModel {
        match self {
            PacketReadError::PoorLayout { section, packet } => PacketErrorModel::PoorLayout {
                section: *section as int,
                packet: packet@,
            },
            PacketReadError::BadPacketLength { expected, got } => {
                PacketErrorModel::BadPacketLength {
                    expected: match expected {
                        Some(e) => Some(*e as int),
                        None => None,
                    },
                    got: *got as int,
                }
            },
            PacketReadError::MetricValue(MetricValueError::BadLength { expected, got }) => {
                PacketErrorModel::BadValue { expected: *expected as int, got: *got as int }
            },
            PacketReadError::Transport(t) => PacketErrorModel::Transport(t@),
        }
    }
}

} // verus!
