//! Frame recovery: unstuffing one delimiter-bounded chunk of the stream.
//!
//! The transport hands over raw bytes up to and including a zero
//! delimiter. The chunk is COBS-decoded; decoding yields the original
//! payload followed by one trailing logical terminator, which is
//! stripped. A chunk with invalid stuffing is reported with its raw
//! bytes and the stream simply continues at the next delimiter.
use vstd::prelude::*;
use vstd::slice::slice_to_vec;

use crate::error::{TransportError, TransportErrorModel};

verus! {

/// What COBS decoding yields on a raw delimited chunk: the decoded
/// bytes (terminator still included), or nothing when the stuffing
/// structure is invalid. A pure function of the bytes alone.
pub uninterp spec fn cobs_decoded(raw: Seq<u8>) -> Option<Seq<u8>>;

/// Relies on postcard_cobs::decode_in_place: a deterministic in-place
/// COBS decode that returns the decoded length, or fails on a code
/// byte that overruns the buffer.
#[verifier::external_body]
fn cobs_decode_chunk(raw: &[u8]) -> (r: Option<Vec<u8>>)
    ensures
        r matches Some(v) ==> cobs_decoded(raw@) == Some(v@),
        r is None ==> cobs_decoded(raw@) is None,
{
    let mut buf = raw.to_vec();
    match postcard_cobs::decode_in_place(&mut buf) {
        Ok(len) => {
            buf.truncate(len);
            Some(buf)
        },
        Err(()) => None,
    }
}

/// The decoded payload with its trailing logical terminator removed.
pub open spec fn spec_strip_terminator(d: Seq<u8>) -> Seq<u8> {
    if d.len() == 0 {
        d
    } else {
        d.take(d.len() - 1)
    }
}

/// Unstuff one delimiter-bounded chunk into a frame.
///
/// The result is a pure function of the chunk's bytes: a well-stuffed
/// chunk yields its payload (terminator stripped), and a malformed one
/// yields `MalformedCOBS` carrying the raw bytes for diagnostics.
pub fn decode_frame(raw: &[u8]) -> (r: Result<Vec<u8>, TransportError>)
    ensures
        cobs_decoded(raw@) matches Some(d) ==> (r matches Ok(frame) && frame@
            == spec_strip_terminator(d)),
        cobs_decoded(raw@) is None ==> (r matches Err(e) && e@ == TransportErrorModel::MalformedCOBS(
            raw@,
        )),
{
    match cobs_decode_chunk(raw) {
        Some(mut decoded) => {
            if decoded.len() > 0 {
                let last = decoded.len() - 1;
                decoded.truncate(last);
                proof {
                    assert(decoded@ =~= spec_strip_terminator(cobs_decoded(raw@)->Some_0));
                }
            }
            Ok(decoded)
        },
        None => Err(TransportError::MalformedCOBS(slice_to_vec(raw))),
    }
}

} // verus!
