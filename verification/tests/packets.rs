use kestrel::{
    parse_packet, packet_from_chunk, decode_frame, Metric, MetricName, MetricValue,
    MetricValueError, OneValue, PacketReadError, Timestamp, TransportError,
};

fn frame(timestamp: u32, name: &str, ty: &str, value: &[u8]) -> Vec<u8> {
    let mut body = Vec::new();
    body.extend_from_slice(&timestamp.to_le_bytes());
    body.extend_from_slice(name.as_bytes());
    body.push(0);
    body.extend_from_slice(ty.as_bytes());
    body.push(0);
    body.extend_from_slice(value);
    let declared = (body.len() + 2) as u16;
    body.extend_from_slice(&declared.to_le_bytes());
    body
}

fn chunk_of(frame: &[u8]) -> Vec<u8> {
    let mut chunk = postcard_cobs::encode_vec(frame);
    chunk.push(0);
    chunk
}

#[test]
fn end_to_end_scenario() {
    let frame = frame(1000, "ultrasonic:distance", "u32", &42u32.to_le_bytes());
    let chunk = chunk_of(&frame);
    let metric = packet_from_chunk(&chunk).expect("well-formed frame must parse");
    let Metric { timestamp, name, value } = metric;
    assert_eq!(timestamp, Timestamp::from_millis(1000));
    assert_eq!(
        name,
        MetricName::namespace("ultrasonic", MetricName::name("distance"))
    );
    assert_eq!(value, MetricValue::One(OneValue::U32(42)));
}

#[test]
fn declared_length_mismatch() {
    // Five body bytes under a trailer that declares a length of ten.
    let mut bytes = vec![9, 9, 9, 9, 9];
    bytes.extend_from_slice(&10u16.to_le_bytes());
    let err = parse_packet(&bytes).unwrap_err();
    assert_eq!(
        err,
        PacketReadError::BadPacketLength { expected: Some(8), got: 5 }
    );
}

#[test]
fn frame_too_short_for_length_trailer() {
    let err = parse_packet(&[]).unwrap_err();
    assert_eq!(err, PacketReadError::BadPacketLength { expected: None, got: 0 });
    let err = parse_packet(&[5]).unwrap_err();
    assert_eq!(err, PacketReadError::BadPacketLength { expected: None, got: 0 });
}

#[test]
fn body_too_short_for_timestamp() {
    // Declared length of five: a three-byte body, shorter than a timestamp.
    let mut bytes = vec![1, 2, 3];
    bytes.extend_from_slice(&5u16.to_le_bytes());
    let err = parse_packet(&bytes).unwrap_err();
    assert_eq!(err, PacketReadError::BadPacketLength { expected: None, got: 3 });
}

#[test]
fn missing_type_section() {
    // A body with a timestamp and a name but no NUL at all.
    let mut body = Vec::new();
    body.extend_from_slice(&7u32.to_le_bytes());
    body.extend_from_slice(b"abc");
    let declared = (body.len() + 2) as u16;
    let payload = body[4..].to_vec();
    body.extend_from_slice(&declared.to_le_bytes());
    let err = parse_packet(&body).unwrap_err();
    assert_eq!(err, PacketReadError::PoorLayout { section: 1, packet: payload });
}

#[test]
fn missing_value_section() {
    // One NUL only: the name ends, but the type tag never does.
    let mut body = Vec::new();
    body.extend_from_slice(&7u32.to_le_bytes());
    body.extend_from_slice(b"abc");
    body.push(0);
    body.extend_from_slice(b"u8");
    let declared = (body.len() + 2) as u16;
    let payload = body[4..].to_vec();
    body.extend_from_slice(&declared.to_le_bytes());
    let err = parse_packet(&body).unwrap_err();
    assert_eq!(err, PacketReadError::PoorLayout { section: 2, packet: payload });
}

#[test]
fn value_length_error_propagates() {
    let bytes = frame(1, "x", "u8", &[1, 2]);
    let err = parse_packet(&bytes).unwrap_err();
    assert_eq!(
        err,
        PacketReadError::MetricValue(MetricValueError::BadLength { expected: 1, got: 2 })
    );
}

#[test]
fn value_bytes_may_contain_nul() {
    let bytes = frame(1, "x", "u32", &[0, 0, 1, 0]);
    let metric = parse_packet(&bytes).unwrap();
    assert_eq!(metric.value, MetricValue::One(OneValue::U32(0x10000)));
}

#[test]
fn unknown_tag_passes_through_packet() {
    let bytes = frame(5, "a:b", "v3", &[1, 2, 3]);
    let metric = parse_packet(&bytes).unwrap();
    assert_eq!(metric.value, MetricValue::Unknown("v3".to_string(), vec![1, 2, 3]));
    assert!(!metric.value.is_focusable());
}

#[test]
fn frame_classification_is_idempotent() {
    // A leading code byte that points past the end of the chunk.
    let malformed = vec![9, 1, 1, 0];
    let first = decode_frame(&malformed).unwrap_err();
    let second = decode_frame(&malformed).unwrap_err();
    assert_eq!(first, TransportError::MalformedCOBS(malformed.clone()));
    assert_eq!(first, second);

    let first = packet_from_chunk(&malformed).unwrap_err();
    let second = packet_from_chunk(&malformed).unwrap_err();
    assert_eq!(
        first,
        PacketReadError::Transport(TransportError::MalformedCOBS(malformed))
    );
    assert_eq!(first, second);
}

#[test]
fn invalid_utf8_name_is_decoded_lossily() {
    // 0xff is never valid UTF-8: the name must survive as replacement
    // characters rather than failing the packet.
    let mut body = Vec::new();
    body.extend_from_slice(&1u32.to_le_bytes());
    body.extend_from_slice(&[0xff, 0xfe]);
    body.push(0);
    body.extend_from_slice(b"u8");
    body.push(0);
    body.push(9);
    let declared = (body.len() + 2) as u16;
    body.extend_from_slice(&declared.to_le_bytes());
    let metric = parse_packet(&body).unwrap();
    assert_eq!(metric.name, MetricName::name("\u{fffd}\u{fffd}"));
    assert_eq!(metric.value, MetricValue::One(OneValue::U8(9)));
}

#[test]
fn multibyte_names_survive() {
    let bytes = frame(3, "caf\u{e9}:\u{3c4}", "bool", &[1]);
    let metric = parse_packet(&bytes).unwrap();
    assert_eq!(
        metric.name,
        MetricName::namespace("caf\u{e9}", MetricName::name("\u{3c4}"))
    );
}

#[test]
fn unstuffing_restores_the_payload() {
    // The frame holds zero bytes; the encoded chunk holds none but the
    // delimiter, so decoding must really unstuff.
    let frame = frame(0, "n", "u16", &256u16.to_le_bytes());
    let chunk = chunk_of(&frame);
    assert_eq!(chunk.iter().filter(|&&b| b == 0).count(), 1);
    let metric = packet_from_chunk(&chunk).unwrap();
    assert_eq!(metric.value, MetricValue::One(OneValue::U16(256)));
    assert_eq!(metric.timestamp, Timestamp::from_millis(0));
}
