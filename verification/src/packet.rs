//! Packet layout: validating a frame and splitting it into a metric.
//!
//! A frame carries, after unstuffing:
//!
//! ```text
//! [ timestamp: u32 ][ name ][ 0x00 ][ type tag ][ 0x00 ][ value bytes ][ declared length: u16 ]
//! ```
//!
//! All multi-byte integers are little-endian. The declared length counts
//! everything from the timestamp through the value bytes, plus two for
//! itself.
use vstd::prelude::*;
use vstd::bytes::*;
use vstd::slice::slice_to_vec;

use crate::error::{PacketErrorModel, PacketReadError, TransportErrorModel};
use crate::framing::{cobs_decoded, decode_frame, spec_strip_terminator};
use crate::name::{MetricName, spec_split_colons};
use crate::text::{utf8_lossy, utf8_lossy_decode};
use crate::timestamp::Timestamp;
use crate::value::{MetricValue, MetricValueError, ValueModel, spec_decode};

verus! {

/// One named, timestamped, typed telemetry reading.
#[derive(Debug, Clone)]
pub struct Metric {
    pub timestamp: Timestamp,
    pub name: MetricName,
    pub value: MetricValue,
}

/// Mathematical shape of a metric.
pub struct MetricModel {
    pub timestamp: u32,
    pub name: Seq<Seq<char>>,
    pub value: ValueModel,
}

impl View for Metric {
    type V = MetricModel;

    open spec fn view(&self) -> MetricModel {
        MetricModel { timestamp: self.timestamp@, name: self.name@, value: self.value@ }
    }
}

/// What the worker hands to the consumer: a telemetry reading, or a
/// connection event synthesized by the worker itself.
#[derive(Debug, Clone)]
pub enum Packet {
    Telemetry(Metric),
    System(SystemPacket),
}

/// Connection events synthesized by the worker, never read off the wire.
#[derive(Debug, Clone, Copy, PartialEq, Eq, Structural)]
pub enum SystemPacket {
    SerialDisconnect,
    SerialConnect,
}

/// Index of the first zero byte, or the length if there is none.
pub open spec fn spec_first_zero(s: Seq<u8>) -> nat
    decreases s.len(),
{
    if s.len() == 0 {
        0
    } else if s[0] == 0 {
        0
    } else {
        1 + spec_first_zero(s.drop_first())
    }
}

proof fn lemma_first_zero(s: Seq<u8>)
    ensures
        spec_first_zero(s) <= s.len(),
        forall|j: int| 0 <= j < spec_first_zero(s) ==> s[j] != 0,
        spec_first_zero(s) < s.len() ==> s[spec_first_zero(s) as int] == 0,
    decreases s.len(),
{
    if s.len() == 0 {
    } else if s[0] == 0 {
    } else {
        lemma_first_zero(s.drop_first());
        assert forall|j: int| 0 <= j < spec_first_zero(s) implies s[j] != 0 by {
            if j > 0 {
                assert(s.drop_first()[j - 1] != 0);
            }
        }
    }
}

/// Position of the first zero byte of a slice, or its length.
fn find_zero(b: &[u8]) -> (i: usize)
    ensures
        i as nat == spec_first_zero(b@),
{
    let n = b.len();
    let mut i: usize = 0;
    while i < n
        invariant
            i <= n,
            n == b@.len(),
            forall|j: int| 0 <= j < i ==> b@[j] != 0,
        decreases n - i,
    {
        if b[i] == 0 {
            proof {
                lemma_first_zero(b@);
            }
            return i;
        }
        i += 1;
    }
    proof {
        lemma_first_zero(b@);
    }
    n
}

/// What parsing a frame yields: a metric, or the exact error.
///
/// In order: a frame of fewer than two bytes cannot hold its length
/// trailer; a declared length that disagrees with the body drops the
/// frame; a body too short for the timestamp is a length error with no
/// expectation; a body with fewer than two NUL delimiters names the
/// first missing section; and the value bytes must fit the type tag.
pub open spec fn spec_parse_packet(frame: Seq<u8>) -> Result<MetricModel, PacketErrorModel> {
    if frame.len() < 2 {
        Err(PacketErrorModel::BadPacketLength { expected: None, got: 0 })
    } else {
        let body = frame.take(frame.len() - 2);
        let declared = spec_u16_from_le_bytes(frame.skip(frame.len() - 2)) as int;
        let expected = if declared >= 2 {
            declared - 2
        } else {
            0
        };
        if expected != body.len() {
            Err(PacketErrorModel::BadPacketLength {
                expected: Some(expected),
                got: body.len() as int,
            })
        } else if body.len() < 4 {
            Err(PacketErrorModel::BadPacketLength { expected: None, got: body.len() as int })
        } else {
            let ts = spec_u32_from_le_bytes(body.take(4));
            let payload = body.skip(4);
            let i = spec_first_zero(payload) as int;
            if i >= payload.len() {
                Err(PacketErrorModel::PoorLayout { section: 1, packet: payload })
            } else {
                let rest = payload.skip(i + 1);
                let j = spec_first_zero(rest) as int;
                if j >= rest.len() {
                    Err(PacketErrorModel::PoorLayout { section: 2, packet: payload })
                } else {
                    let ty = utf8_lossy(rest.take(j));
                    let value_bytes = rest.skip(j + 1);
                    match spec_decode(ty, value_bytes) {
                        Ok(v) => Ok(
                            MetricModel {
                                timestamp: ts,
                                name: spec_split_colons(utf8_lossy(payload.take(i))),
                                value: v,
                            },
                        ),
                        Err(eg) => Err(PacketErrorModel::BadValue { expected: eg.0, got: eg.1 }),
                    }
                }
            }
        }
    }
}

/// Validate a frame's declared length and split it into timestamp,
/// name, type tag and value, decoding the value against the tag.
pub fn parse_packet(frame: &[u8]) -> (r: Result<Metric, PacketReadError>)
    ensures
        spec_parse_packet(frame@) matches Ok(m) ==> (r matches Ok(metric) && metric@ == m),
        spec_parse_packet(frame@) matches Err(e) ==> (r matches Err(err) && err@ == e),
{
    let flen = frame.len();
    if flen < 2 {
        return Err(PacketReadError::BadPacketLength { expected: None, got: 0 });
    }
    let body = &frame[0..flen - 2];
    let len_bytes = &frame[flen - 2..flen];
    proof {
        assert(body@ =~= frame@.take(flen - 2));
        assert(len_bytes@ =~= frame@.skip(flen - 2));
    }
    let declared = u16_from_le_bytes(len_bytes) as usize;
    let expected = if declared >= 2 {
        declared - 2
    } else {
        0
    };
    if expected != body.len() {
        return Err(PacketReadError::BadPacketLength { expected: Some(expected), got: body.len() });
    }
    if body.len() < 4 {
        return Err(PacketReadError::BadPacketLength { expected: None, got: body.len() });
    }
    let ts_bytes = &body[0..4];
    proof {
        assert(ts_bytes@ =~= frame@.take(flen - 2).take(4));
    }
    let ts = u32_from_le_bytes(ts_bytes);
    let payload = &body[4..body.len()];
    proof {
        assert(payload@ =~= frame@.take(flen - 2).skip(4));
    }
    let i = find_zero(payload);
    if i >= payload.len() {
        return Err(
            PacketReadError::PoorLayout { section: 1, packet: slice_to_vec(payload) },
        );
    }
    let name_bytes = &payload[0..i];
    let rest = &payload[i + 1..payload.len()];
    proof {
        assert(rest@ =~= payload@.skip(i as int + 1));
    }
    let j = find_zero(rest);
    if j >= rest.len() {
        return Err(
            PacketReadError::PoorLayout { section: 2, packet: slice_to_vec(payload) },
        );
    }
    let ty_str = utf8_lossy_decode(&rest[0..j]);
    let value_bytes = &rest[j + 1..rest.len()];
    let name_str = utf8_lossy_decode(name_bytes);
    proof {
        assert(name_bytes@ =~= payload@.take(i as int));
        assert(rest@.take(j as int) =~= rest@.subrange(0, j as int));
        assert(value_bytes@ =~= rest@.skip(j as int + 1));
    }
    match MetricValue::from_bytes(ty_str, value_bytes) {
        Ok(value) => Ok(
            Metric {
                timestamp: Timestamp::from_millis(ts),
                name: MetricName::parse(name_str.as_str()),
                value,
            },
        ),
        Err(MetricValueError::BadLength { expected, got }) => Err(
            PacketReadError::MetricValue(MetricValueError::BadLength { expected, got }),
        ),
    }
}

/// What one raw delimited chunk yields end to end: unstuffed, stripped
/// of its terminator, and parsed as a packet.
pub open spec fn spec_packet_from_chunk(raw: Seq<u8>) -> Result<MetricModel, PacketErrorModel> {
    match cobs_decoded(raw) {
        Some(d) => spec_parse_packet(spec_strip_terminator(d)),
        None => Err(PacketErrorModel::Transport(TransportErrorModel::MalformedCOBS(raw))),
    }
}

/// Framing and parsing classify a chunk by its bytes alone: two chunks
/// with equal bytes yield equal outcomes, the malformed-framing
/// classification included, however often they are decoded.
pub proof fn lemma_chunk_classification_deterministic(a: Seq<u8>, b: Seq<u8>)
    requires
        a == b,
    ensures
        spec_packet_from_chunk(a) == spec_packet_from_chunk(b),
{
}

/// Turn one raw delimited chunk of the stream into a metric: unstuff
/// the chunk, then validate and decode the packet inside it.
pub fn packet_from_chunk(raw: &[u8]) -> (r: Result<Metric, PacketReadError>)
    ensures
        spec_packet_from_chunk(raw@) matches Ok(m) ==> (r matches Ok(metric) && metric@ == m),
        spec_packet_from_chunk(raw@) matches Err(e) ==> (r matches Err(err) && err@ == e),
{
    match decode_frame(raw) {
        Ok(frame) => parse_packet(frame.as_slice()),
        Err(t) => Err(PacketReadError::Transport(t)),
    }
}

} // verus!
