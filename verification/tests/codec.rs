use kestrel::{ManyValues, MetricValue, MetricValueError, OneValue};

fn round_trip(value: MetricValue) {
    let tag = value.ty().to_string();
    let bytes = value.wire_bytes();
    let decoded = MetricValue::from_bytes(tag, &bytes).expect("round trip must decode");
    assert_eq!(decoded, value);
}

#[test]
fn round_trip_unsigned_scalars() {
    round_trip(MetricValue::One(OneValue::U8(0)));
    round_trip(MetricValue::One(OneValue::U8(255)));
    round_trip(MetricValue::One(OneValue::U16(0xbeef)));
    round_trip(MetricValue::One(OneValue::U32(0xdeadbeef)));
    round_trip(MetricValue::One(OneValue::U64(u64::MAX)));
}

#[test]
fn round_trip_signed_scalars() {
    round_trip(MetricValue::One(OneValue::I8(-1)));
    round_trip(MetricValue::One(OneValue::I8(i8::MIN)));
    round_trip(MetricValue::One(OneValue::I16(-2)));
    round_trip(MetricValue::One(OneValue::I32(i32::MIN)));
    round_trip(MetricValue::One(OneValue::I64(-123456789012345)));
}

#[test]
fn round_trip_bool_and_float_scalars() {
    round_trip(MetricValue::One(OneValue::Bool(true)));
    round_trip(MetricValue::One(OneValue::Bool(false)));
    round_trip(MetricValue::One(OneValue::F32(1.5f32.to_bits())));
    round_trip(MetricValue::One(OneValue::F64((-0.25f64).to_bits())));
}

#[test]
fn round_trip_arrays() {
    round_trip(MetricValue::Many(ManyValues::U8(vec![1, 2, 3])));
    round_trip(MetricValue::Many(ManyValues::U16(vec![0, 0xffff])));
    round_trip(MetricValue::Many(ManyValues::U32(vec![7])));
    round_trip(MetricValue::Many(ManyValues::U64(vec![u64::MAX, 0])));
    round_trip(MetricValue::Many(ManyValues::I8(vec![-3, 3])));
    round_trip(MetricValue::Many(ManyValues::I16(vec![-300, 300])));
    round_trip(MetricValue::Many(ManyValues::I32(vec![i32::MIN, i32::MAX])));
    round_trip(MetricValue::Many(ManyValues::I64(vec![-1])));
    round_trip(MetricValue::Many(ManyValues::Bool(vec![true, false, true])));
    round_trip(MetricValue::Many(ManyValues::F32(vec![3.25f32.to_bits()])));
    round_trip(MetricValue::Many(ManyValues::F64(vec![6.5f64.to_bits(), 0.0f64.to_bits()])));
    round_trip(MetricValue::Many(ManyValues::U32(vec![])));
}

#[test]
fn exact_scalar_decodings() {
    let v = MetricValue::from_bytes("u32".to_string(), &[42, 0, 0, 0]).unwrap();
    assert_eq!(v, MetricValue::One(OneValue::U32(42)));

    let v = MetricValue::from_bytes("u16".to_string(), &[0x34, 0x12]).unwrap();
    assert_eq!(v, MetricValue::One(OneValue::U16(0x1234)));

    let v = MetricValue::from_bytes("i16".to_string(), &(-2i16).to_le_bytes()).unwrap();
    assert_eq!(v, MetricValue::One(OneValue::I16(-2)));

    let v = MetricValue::from_bytes("i64".to_string(), &i64::MIN.to_le_bytes()).unwrap();
    assert_eq!(v, MetricValue::One(OneValue::I64(i64::MIN)));

    let v = MetricValue::from_bytes("f32".to_string(), &1.5f32.to_le_bytes()).unwrap();
    assert_eq!(v, MetricValue::One(OneValue::F32(1.5f32.to_bits())));
}

#[test]
fn bool_reads_any_nonzero_byte_as_true() {
    let v = MetricValue::from_bytes("bool".to_string(), &[7]).unwrap();
    assert_eq!(v, MetricValue::One(OneValue::Bool(true)));
    let v = MetricValue::from_bytes("bool".to_string(), &[0]).unwrap();
    assert_eq!(v, MetricValue::One(OneValue::Bool(false)));
}

#[test]
fn scalar_length_mismatch_is_exact() {
    let err = MetricValue::from_bytes("u32".to_string(), &[1, 2, 3]).unwrap_err();
    assert_eq!(err, MetricValueError::BadLength { expected: 4, got: 3 });

    let err = MetricValue::from_bytes("u64".to_string(), &[0; 9]).unwrap_err();
    assert_eq!(err, MetricValueError::BadLength { expected: 8, got: 9 });

    let err = MetricValue::from_bytes("bool".to_string(), &[]).unwrap_err();
    assert_eq!(err, MetricValueError::BadLength { expected: 1, got: 0 });
}

#[test]
fn array_partial_chunk_fails() {
    let err = MetricValue::from_bytes("[u16]".to_string(), &[1, 2, 3]).unwrap_err();
    assert_eq!(err, MetricValueError::BadLength { expected: 2, got: 1 });

    let err = MetricValue::from_bytes("[u32]".to_string(), &[0; 6]).unwrap_err();
    assert_eq!(err, MetricValueError::BadLength { expected: 4, got: 2 });
}

#[test]
fn empty_array_decodes() {
    let v = MetricValue::from_bytes("[u8]".to_string(), &[]).unwrap();
    assert_eq!(v, MetricValue::Many(ManyValues::U8(vec![])));
}

#[test]
fn unknown_tag_never_fails() {
    let v = MetricValue::from_bytes("v3".to_string(), &[1, 2, 3]).unwrap();
    assert_eq!(v, MetricValue::Unknown("v3".to_string(), vec![1, 2, 3]));

    let v = MetricValue::from_bytes(String::new(), &[]).unwrap();
    assert_eq!(v, MetricValue::Unknown(String::new(), vec![]));

    let v = MetricValue::from_bytes("U8".to_string(), &[0; 100]).unwrap();
    assert_eq!(v, MetricValue::Unknown("U8".to_string(), vec![0; 100]));
}

#[test]
fn unknown_value_is_not_focusable() {
    let v = MetricValue::from_bytes("v3".to_string(), &[1, 2, 3]).unwrap();
    assert_eq!(v, MetricValue::Unknown("v3".to_string(), vec![1, 2, 3]));
    assert!(!v.is_focusable());
    assert!(!v.is_bool());
    assert!(!v.is_float());
    assert!(!v.is_signed_integer());
    assert!(!v.is_unsigned_integer());
    assert!(v.as_bool().is_none());
    assert!(v.as_unsigned_integer().is_none());
    assert!(v.as_signed_integer().is_none());
    assert!(v.as_f32_bits().is_none());
    assert!(v.as_f64_bits().is_none());
}

#[test]
fn scalars_are_focusable() {
    assert!(MetricValue::One(OneValue::U8(1)).is_focusable());
    assert!(MetricValue::One(OneValue::I64(-1)).is_focusable());
    assert!(MetricValue::One(OneValue::Bool(true)).is_focusable());
    assert!(MetricValue::One(OneValue::F64(0)).is_focusable());
    assert!(!MetricValue::Many(ManyValues::U8(vec![1])).is_focusable());
}

#[test]
fn widening_accessors() {
    assert_eq!(MetricValue::One(OneValue::U8(200)).as_unsigned_integer(), Some(200));
    assert_eq!(MetricValue::One(OneValue::U64(u64::MAX)).as_unsigned_integer(), Some(u64::MAX));
    assert_eq!(MetricValue::One(OneValue::I8(-5)).as_signed_integer(), Some(-5));
    assert_eq!(MetricValue::One(OneValue::I32(i32::MIN)).as_signed_integer(), Some(i32::MIN as i64));
    assert_eq!(MetricValue::One(OneValue::U8(1)).as_signed_integer(), None);
    assert_eq!(MetricValue::One(OneValue::I8(1)).as_unsigned_integer(), None);
    assert_eq!(MetricValue::One(OneValue::Bool(true)).as_bool(), Some(true));
    assert_eq!(MetricValue::One(OneValue::F32(1.5f32.to_bits())).as_f32_bits(), Some(1.5f32.to_bits()));
}

#[test]
fn widening_array_accessors() {
    let v = MetricValue::Many(ManyValues::U16(vec![1, 2, 3]));
    assert_eq!(v.as_unsigned_integer_iter(), Some(vec![1u64, 2, 3]));
    assert_eq!(v.as_signed_integer_iter(), None);

    let v = MetricValue::Many(ManyValues::I8(vec![-1, 1]));
    assert_eq!(v.as_signed_integer_iter(), Some(vec![-1i64, 1]));
    assert_eq!(v.as_unsigned_integer_iter(), None);

    let v = MetricValue::Many(ManyValues::Bool(vec![true, false]));
    assert_eq!(v.as_bool_iter(), Some(vec![true, false]));
    assert_eq!(v.as_unsigned_integer_iter(), None);
}

#[test]
fn empty_arrays_only_widen_under_their_own_kind() {
    let empty_signed = MetricValue::Many(ManyValues::I8(vec![]));
    assert_eq!(empty_signed.as_unsigned_integer_iter(), None);
    assert_eq!(empty_signed.as_signed_integer_iter(), Some(vec![]));
    assert_eq!(empty_signed.as_bool_iter(), None);

    let empty_bool = MetricValue::Many(ManyValues::Bool(vec![]));
    assert_eq!(empty_bool.as_signed_integer_iter(), None);
    assert_eq!(empty_bool.as_unsigned_integer_iter(), None);
    assert_eq!(empty_bool.as_bool_iter(), Some(vec![]));

    let empty_float = MetricValue::Many(ManyValues::F32(vec![]));
    assert_eq!(empty_float.as_unsigned_integer_iter(), None);
    assert_eq!(empty_float.as_f32_bits_iter(), Some(vec![]));
    assert_eq!(empty_float.as_f64_bits_iter(), None);
}

#[test]
fn float_bit_array_accessors() {
    let v = MetricValue::Many(ManyValues::F32(vec![1.5f32.to_bits(), 0.25f32.to_bits()]));
    assert_eq!(
        v.as_f32_bits_iter(),
        Some(vec![1.5f32.to_bits(), 0.25f32.to_bits()])
    );
    assert_eq!(v.as_f64_bits_iter(), None);

    let v = MetricValue::Many(ManyValues::F64(vec![6.5f64.to_bits()]));
    assert_eq!(v.as_f64_bits_iter(), Some(vec![6.5f64.to_bits()]));
    assert_eq!(v.as_f32_bits_iter(), None);

    let v = MetricValue::Many(ManyValues::U32(vec![1]));
    assert_eq!(v.as_f32_bits_iter(), None);
    let v = MetricValue::One(OneValue::F32(1.5f32.to_bits()));
    assert_eq!(v.as_f32_bits_iter(), None);
}

#[test]
fn tags_survive_the_value() {
    assert_eq!(MetricValue::One(OneValue::U32(1)).ty(), "u32");
    assert_eq!(MetricValue::Many(ManyValues::Bool(vec![])).ty(), "[bool]");
    assert_eq!(
        MetricValue::Unknown("quaternion".to_string(), vec![]).ty(),
        "quaternion"
    );
}

#[test]
fn array_elements_widen() {
    let m = ManyValues::I16(vec![-7, 7]);
    assert_eq!(m.elements(), vec![OneValue::I16(-7), OneValue::I16(7)]);
    assert_eq!(m.kind(), kestrel::ScalarKind::I16);
}

#[test]
fn scalar_encodings_are_little_endian() {
    assert_eq!(OneValue::U16(0x1234).encode(), vec![0x34, 0x12]);
    assert_eq!(OneValue::U32(0xdeadbeef).encode(), vec![0xef, 0xbe, 0xad, 0xde]);
    assert_eq!(OneValue::I8(-1).encode(), vec![0xff]);
    assert_eq!(OneValue::Bool(true).encode(), vec![1]);
    assert_eq!(
        OneValue::F32(1.5f32.to_bits()).encode(),
        1.5f32.to_le_bytes().to_vec()
    );
}
