//! Proved laws of the value codec: tag recognition, round-trips, the
//! length invariant, and totality on unknown tags.
use vstd::prelude::*;
use vstd::bytes::*;
use vstd::arithmetic::div_mod::lemma_mod_multiples_basic;

use crate::value::{
    OneValue,
    spec_i8_from_u8,
    spec_i16_from_u16,
    spec_i32_from_u32,
    spec_i64_from_u64,
    spec_u8_of_i8,
    spec_u16_of_i16,
    spec_u32_of_i32,
    spec_u64_of_i64,
    ScalarKind,
    ValueModel,
    scalar_width,
    spec_array_tag,
    spec_array_tag_chars,
    spec_decode,
    spec_kind_of,
    spec_scalar_bytes,
    spec_scalar_of,
    spec_scalar_seq,
    spec_scalar_tag,
    spec_scalar_tag_chars,
    spec_seq_bytes,
};

verus! {

/// Each canonical tag names its own kind, and no array tag reads as a
/// scalar tag.
pub proof fn lemma_tag_recognition(k: ScalarKind)
    ensures
        spec_scalar_tag(spec_scalar_tag_chars(k)) == Some(k),
        spec_array_tag(spec_array_tag_chars(k)) == Some(k),
        spec_scalar_tag(spec_array_tag_chars(k)) == None::<ScalarKind>,
{
    reveal_strlit("u8");
    reveal_strlit("u16");
    reveal_strlit("u32");
    reveal_strlit("u64");
    reveal_strlit("i8");
    reveal_strlit("i16");
    reveal_strlit("i32");
    reveal_strlit("i64");
    reveal_strlit("bool");
    reveal_strlit("f32");
    reveal_strlit("f64");
    reveal_strlit("[u8]");
    reveal_strlit("[u16]");
    reveal_strlit("[u32]");
    reveal_strlit("[u64]");
    reveal_strlit("[i8]");
    reveal_strlit("[i16]");
    reveal_strlit("[i32]");
    reveal_strlit("[i64]");
    reveal_strlit("[bool]");
    reveal_strlit("[f32]");
    reveal_strlit("[f64]");
    assert("u8"@ =~= seq!['u', '8']);
    assert("u16"@ =~= seq!['u', '1', '6']);
    assert("u32"@ =~= seq!['u', '3', '2']);
    assert("u64"@ =~= seq!['u', '6', '4']);
    assert("i8"@ =~= seq!['i', '8']);
    assert("i16"@ =~= seq!['i', '1', '6']);
    assert("i32"@ =~= seq!['i', '3', '2']);
    assert("i64"@ =~= seq!['i', '6', '4']);
    assert("bool"@ =~= seq!['b', 'o', 'o', 'l']);
    assert("f32"@ =~= seq!['f', '3', '2']);
    assert("f64"@ =~= seq!['f', '6', '4']);
    assert("[u8]"@ =~= seq!['[', 'u', '8', ']']);
    assert("[u16]"@ =~= seq!['[', 'u', '1', '6', ']']);
    assert("[u32]"@ =~= seq!['[', 'u', '3', '2', ']']);
    assert("[u64]"@ =~= seq!['[', 'u', '6', '4', ']']);
    assert("[i8]"@ =~= seq!['[', 'i', '8', ']']);
    assert("[i16]"@ =~= seq!['[', 'i', '1', '6', ']']);
    assert("[i32]"@ =~= seq!['[', 'i', '3', '2', ']']);
    assert("[i64]"@ =~= seq!['[', 'i', '6', '4', ']']);
    assert("[bool]"@ =~= seq!['[', 'b', 'o', 'o', 'l', ']']);
    assert("[f32]"@ =~= seq!['[', 'f', '3', '2', ']']);
    assert("[f64]"@ =~= seq!['[', 'f', '6', '4', ']']);
    match k {
        ScalarKind::U8 => {
            assert(spec_scalar_tag("u8"@) == Some(ScalarKind::U8));
            assert(spec_array_tag("[u8]"@) == Some(ScalarKind::U8));
            assert(spec_scalar_tag("[u8]"@) is None);
        },
        ScalarKind::U16 => {
            assert(spec_scalar_tag("u16"@) == Some(ScalarKind::U16));
            assert(spec_array_tag("[u16]"@) == Some(ScalarKind::U16));
            assert(spec_scalar_tag("[u16]"@) is None);
        },
        ScalarKind::U32 => {
            assert(spec_scalar_tag("u32"@) == Some(ScalarKind::U32));
            assert(spec_array_tag("[u32]"@) == Some(ScalarKind::U32));
            assert(spec_scalar_tag("[u32]"@) is None);
        },
        ScalarKind::U64 => {
            assert(spec_scalar_tag("u64"@) == Some(ScalarKind::U64));
            assert(spec_array_tag("[u64]"@) == Some(ScalarKind::U64));
            assert(spec_scalar_tag("[u64]"@) is None);
        },
        ScalarKind::I8 => {
            assert(spec_scalar_tag("i8"@) == Some(ScalarKind::I8));
            assert(spec_array_tag("[i8]"@) == Some(ScalarKind::I8));
            assert(spec_scalar_tag("[i8]"@) is None);
        },
        ScalarKind::I16 => {
            assert(spec_scalar_tag("i16"@) == Some(ScalarKind::I16));
            assert(spec_array_tag("[i16]"@) == Some(ScalarKind::I16));
            assert(spec_scalar_tag("[i16]"@) is None);
        },
        ScalarKind::I32 => {
            assert(spec_scalar_tag("i32"@) == Some(ScalarKind::I32));
            assert(spec_array_tag("[i32]"@) == Some(ScalarKind::I32));
            assert(spec_scalar_tag("[i32]"@) is None);
        },
        ScalarKind::I64 => {
            assert(spec_scalar_tag("i64"@) == Some(ScalarKind::I64));
            assert(spec_array_tag("[i64]"@) == Some(ScalarKind::I64));
            assert(spec_scalar_tag("[i64]"@) is None);
        },
        ScalarKind::Bool => {
            assert(spec_scalar_tag("bool"@) == Some(ScalarKind::Bool));
            assert(spec_array_tag("[bool]"@) == Some(ScalarKind::Bool));
            assert(spec_scalar_tag("[bool]"@) is None);
        },
        ScalarKind::F32 => {
            assert(spec_scalar_tag("f32"@) == Some(ScalarKind::F32));
            assert(spec_array_tag("[f32]"@) == Some(ScalarKind::F32));
            assert(spec_scalar_tag("[f32]"@) is None);
        },
        ScalarKind::F64 => {
            assert(spec_scalar_tag("f64"@) == Some(ScalarKind::F64));
            assert(spec_array_tag("[f64]"@) == Some(ScalarKind::F64));
            assert(spec_scalar_tag("[f64]"@) is None);
        },
    }
}

/// A scalar encodes to exactly its kind's width in bytes.
pub proof fn lemma_scalar_bytes_len(s: OneValue)
    ensures
        spec_scalar_bytes(s).len() == scalar_width(spec_kind_of(s)),
{
    lemma_auto_spec_u16_to_from_le_bytes();
    lemma_auto_spec_u32_to_from_le_bytes();
    lemma_auto_spec_u64_to_from_le_bytes();
}

/// Reading back the bytes of a scalar yields the scalar.
pub proof fn lemma_scalar_value_round_trip(s: OneValue)
    ensures
        spec_scalar_of(spec_kind_of(s), spec_scalar_bytes(s)) == s,
{
    lemma_auto_spec_u16_to_from_le_bytes();
    lemma_auto_spec_u32_to_from_le_bytes();
    lemma_auto_spec_u64_to_from_le_bytes();
    match s {
        OneValue::U8(x) => {
            assert(spec_scalar_bytes(s)[0] == x);
        },
        OneValue::U16(x) => {
            assert(spec_u16_to_le_bytes(x).len() == 2);
        },
        OneValue::U32(x) => {
            assert(spec_u32_to_le_bytes(x).len() == 4);
        },
        OneValue::I8(x) => {
            assert(spec_scalar_bytes(s)[0] == spec_u8_of_i8(x));
            assert(spec_i8_from_u8(spec_u8_of_i8(x)) == x);
        },
        OneValue::I16(x) => {
            assert(spec_u16_to_le_bytes(spec_u16_of_i16(x)).len() == 2);
            assert(spec_i16_from_u16(spec_u16_of_i16(x)) == x);
        },
        OneValue::I32(x) => {
            assert(spec_u32_to_le_bytes(spec_u32_of_i32(x)).len() == 4);
            assert(spec_i32_from_u32(spec_u32_of_i32(x)) == x);
        },
        OneValue::I64(x) => {
            assert(spec_i64_from_u64(spec_u64_of_i64(x)) == x);
        },
        OneValue::Bool(b) => {
            assert(spec_scalar_bytes(s)[0] == (if b { 1u8 } else { 0u8 }));
        },
        OneValue::F32(bits) => {
            assert(spec_u32_to_le_bytes(bits).len() == 4);
        },
        _ => {},
    }
}

/// Round-trip for scalars: encoding a value and decoding it under its
/// own tag yields the value back.
pub proof fn lemma_scalar_round_trip(s: OneValue)
    ensures
        spec_decode(spec_scalar_tag_chars(spec_kind_of(s)), spec_scalar_bytes(s)) == Ok::<
            ValueModel,
            (int, int),
        >(ValueModel::One(s)),
{
    lemma_tag_recognition(spec_kind_of(s));
    lemma_scalar_bytes_len(s);
    lemma_scalar_value_round_trip(s);
}

/// An array of scalars of one kind encodes to one chunk per element.
pub proof fn lemma_seq_bytes_len(k: ScalarKind, elems: Seq<OneValue>)
    requires
        forall|i: int| 0 <= i < elems.len() ==> spec_kind_of(#[trigger] elems[i]) == k,
    ensures
        spec_seq_bytes(elems).len() == elems.len() * scalar_width(k),
    decreases elems.len(),
{
    if elems.len() == 0 {
    } else {
        lemma_scalar_bytes_len(elems[0]);
        lemma_seq_bytes_len(k, elems.drop_first());
        assert(scalar_width(k) + (elems.len() - 1) * scalar_width(k) == elems.len() * scalar_width(
            k,
        )) by (nonlinear_arith);
    }
}

/// Reading back the bytes of an array yields the elements.
pub proof fn lemma_scalar_seq_of_seq_bytes(k: ScalarKind, elems: Seq<OneValue>)
    requires
        forall|i: int| 0 <= i < elems.len() ==> spec_kind_of(#[trigger] elems[i]) == k,
    ensures
        spec_scalar_seq(k, spec_seq_bytes(elems)) == elems,
    decreases elems.len(),
{
    let w = scalar_width(k) as int;
    if elems.len() == 0 {
    } else {
        let sb = spec_scalar_bytes(elems[0]);
        let rest = spec_seq_bytes(elems.drop_first());
        lemma_scalar_bytes_len(elems[0]);
        lemma_scalar_value_round_trip(elems[0]);
        assert((sb + rest).take(w) =~= sb);
        assert((sb + rest).skip(w) =~= rest);
        lemma_scalar_seq_of_seq_bytes(k, elems.drop_first());
        assert(spec_scalar_seq(k, sb + rest) =~= elems);
    }
}

/// Round-trip for arrays: encoding elements of one kind and decoding
/// them under the bracketed tag yields the elements back.
pub proof fn lemma_array_round_trip(k: ScalarKind, elems: Seq<OneValue>)
    requires
        forall|i: int| 0 <= i < elems.len() ==> spec_kind_of(#[trigger] elems[i]) == k,
    ensures
        spec_decode(spec_array_tag_chars(k), spec_seq_bytes(elems)) == Ok::<
            ValueModel,
            (int, int),
        >(ValueModel::Many(k, elems)),
{
    lemma_tag_recognition(k);
    lemma_seq_bytes_len(k, elems);
    lemma_mod_multiples_basic(elems.len() as int, scalar_width(k) as int);
    lemma_scalar_seq_of_seq_bytes(k, elems);
}

/// Length invariant for scalars: a scalar tag decodes successfully
/// exactly when the byte count equals the tag's width.
pub proof fn lemma_scalar_length_invariant(k: ScalarKind, bytes: Seq<u8>)
    ensures
        spec_decode(spec_scalar_tag_chars(k), bytes) is Ok <==> bytes.len() == scalar_width(k),
{
    lemma_tag_recognition(k);
}

/// Length invariant for arrays: an array tag decodes successfully
/// exactly when the byte count is a whole number of element widths.
pub proof fn lemma_array_length_invariant(k: ScalarKind, bytes: Seq<u8>)
    ensures
        spec_decode(spec_array_tag_chars(k), bytes) is Ok <==> bytes.len() as int % (scalar_width(
            k,
        ) as int) == 0,
{
    lemma_tag_recognition(k);
}

/// Totality on unknown tags: a tag outside the recognized set never
/// fails; the tag and bytes are preserved verbatim.
pub proof fn lemma_unknown_total(tag: Seq<char>, bytes: Seq<u8>)
    requires
        spec_scalar_tag(tag) is None,
        spec_array_tag(tag) is None,
    ensures
        spec_decode(tag, bytes) == Ok::<ValueModel, (int, int)>(ValueModel::Unknown(tag, bytes)),
{
}

} // verus!
