//! Decoding and encoding of type-tagged telemetry values.
//!
//! A value arrives on the wire as a type tag (a short string such as
//! `"u32"` or `"[bool]"`) and a run of raw bytes. Scalar tags demand an
//! exact byte count; array tags demand a whole number of fixed-width
//! chunks; every other tag is preserved verbatim as an [`MetricValue::Unknown`]
//! value, so firmware may ship new types without breaking this build.
//!
//! 32- and 64-bit IEEE-754 readings are carried as their raw bit
//! patterns (`u32` / `u64`); converting the bits to a native float is
//! left to the consumer.
use vstd::prelude::*;
use vstd::bytes::*;
use vstd::arithmetic::div_mod::{
    lemma_small_mod,
    lemma_sub_mod_noop,
    lemma_mod_add_multiples_vanish,
};

use crate::text::str_eq_str;
use vstd::pervasive::unreached;
use vstd::slice::slice_to_vec;

verus! {

/// The eleven scalar shapes a tagged value can take.
#[derive(Debug, Clone, Copy, PartialEq, Eq)]
pub enum ScalarKind {
    U8,
    U16,
    U32,
    U64,
    I8,
    I16,
    I32,
    I64,
    Bool,
    F32,
    F64,
}

/// Byte width of one scalar of the given kind.
pub open spec fn scalar_width(k: ScalarKind) -> nat {
    match k {
        ScalarKind::U8 => 1,
        ScalarKind::U16 => 2,
        ScalarKind::U32 => 4,
        ScalarKind::U64 => 8,
        ScalarKind::I8 => 1,
        ScalarKind::I16 => 2,
        ScalarKind::I32 => 4,
        ScalarKind::I64 => 8,
        ScalarKind::Bool => 1,
        ScalarKind::F32 => 4,
        ScalarKind::F64 => 8,
    }
}

/// One decoded scalar reading. Float readings hold the IEEE-754 bit
/// pattern of the wire value.
#[derive(Debug, Clone, Copy, PartialEq, Eq)]
pub enum OneValue {
    U8(u8),
    U16(u16),
    U32(u32),
    U64(u64),
    I8(i8),
    I16(i16),
    I32(i32),
    I64(i64),
    Bool(bool),
    F32(u32),
    F64(u64),
}

/// One decoded array reading: every element shares a scalar kind.
/// Float elements hold IEEE-754 bit patterns.
#[derive(Debug, Clone, PartialEq, Eq)]
pub enum ManyValues {
    U8(Vec<u8>),
    U16(Vec<u16>),
    U32(Vec<u32>),
    U64(Vec<u64>),
    I8(Vec<i8>),
    I16(Vec<i16>),
    I32(Vec<i32>),
    I64(Vec<i64>),
    Bool(Vec<bool>),
    F32(Vec<u32>),
    F64(Vec<u64>),
}

/// A decoded telemetry value: a scalar, an array, or an unrecognized
/// tag preserved together with its raw bytes.
#[derive(Debug, Clone, PartialEq, Eq)]
pub enum MetricValue {
    One(OneValue),
    Many(ManyValues),
    Unknown(String, Vec<u8>),
}

/// Why a recognized tag failed to decode.
#[derive(Debug, Clone, PartialEq, Eq)]
pub enum MetricValueError {
    BadLength { expected: usize, got: usize },
}

/// Mathematical shape of a decoded value.
pub enum ValueModel {
    One(OneValue),
    Many(ScalarKind, Seq<OneValue>),
    Unknown(Seq<char>, Seq<u8>),
}

/// The scalar kind a reading belongs to.
pub open spec fn spec_kind_of(s: OneValue) -> ScalarKind {
    match s {
        OneValue::U8(_) => ScalarKind::U8,
        OneValue::U16(_) => ScalarKind::U16,
        OneValue::U32(_) => ScalarKind::U32,
        OneValue::U64(_) => ScalarKind::U64,
        OneValue::I8(_) => ScalarKind::I8,
        OneValue::I16(_) => ScalarKind::I16,
        OneValue::I32(_) => ScalarKind::I32,
        OneValue::I64(_) => ScalarKind::I64,
        OneValue::Bool(_) => ScalarKind::Bool,
        OneValue::F32(_) => ScalarKind::F32,
        OneValue::F64(_) => ScalarKind::F64,
    }
}

// Two's-complement readings of unsigned little-endian words, and back.

pub open spec fn spec_i8_from_u8(u: u8) -> i8 {
    if u < 0x80 {
        u as i8
    } else {
        (u - 0x100) as i8
    }
}

pub open spec fn spec_i16_from_u16(u: u16) -> i16 {
    if u < 0x8000 {
        u as i16
    } else {
        (u - 0x10000) as i16
    }
}

pub open spec fn spec_i32_from_u32(u: u32) -> i32 {
    if u < 0x80000000 {
        u as i32
    } else {
        (u - 0x100000000) as i32
    }
}

pub open spec fn spec_i64_from_u64(u: u64) -> i64 {
    if u < 0x8000000000000000 {
        u as i64
    } else {
        (u - 0x10000000000000000) as i64
    }
}

pub open spec fn spec_u8_of_i8(x: i8) -> u8 {
    if x >= 0 {
        x as u8
    } else {
        (x + 0x100) as u8
    }
}

pub open spec fn spec_u16_of_i16(x: i16) -> u16 {
    if x >= 0 {
        x as u16
    } else {
        (x + 0x10000) as u16
    }
}

pub open spec fn spec_u32_of_i32(x: i32) -> u32 {
    if x >= 0 {
        x as u32
    } else {
        (x + 0x100000000) as u32
    }
}

pub open spec fn spec_u64_of_i64(x: i64) -> u64 {
    if x >= 0 {
        x as u64
    } else {
        (x + 0x10000000000000000) as u64
    }
}

/// The scalar encoded by exactly `scalar_width(k)` little-endian bytes.
pub open spec fn spec_scalar_of(k: ScalarKind, bytes: Seq<u8>) -> OneValue
    recommends
        bytes.len() == scalar_width(k),
{
    match k {
        ScalarKind::U8 => OneValue::U8(bytes[0]),
        ScalarKind::U16 => OneValue::U16(spec_u16_from_le_bytes(bytes)),
        ScalarKind::U32 => OneValue::U32(spec_u32_from_le_bytes(bytes)),
        ScalarKind::U64 => OneValue::U64(spec_u64_from_le_bytes(bytes)),
        ScalarKind::I8 => OneValue::I8(spec_i8_from_u8(bytes[0])),
        ScalarKind::I16 => OneValue::I16(spec_i16_from_u16(spec_u16_from_le_bytes(bytes))),
        ScalarKind::I32 => OneValue::I32(spec_i32_from_u32(spec_u32_from_le_bytes(bytes))),
        ScalarKind::I64 => OneValue::I64(spec_i64_from_u64(spec_u64_from_le_bytes(bytes))),
        ScalarKind::Bool => OneValue::Bool(bytes[0] != 0),
        ScalarKind::F32 => OneValue::F32(spec_u32_from_le_bytes(bytes)),
        ScalarKind::F64 => OneValue::F64(spec_u64_from_le_bytes(bytes)),
    }
}

/// The little-endian bytes that encode one scalar reading.
pub open spec fn spec_scalar_bytes(s: OneValue) -> Seq<u8> {
    match s {
        OneValue::U8(x) => seq![x],
        OneValue::U16(x) => spec_u16_to_le_bytes(x),
        OneValue::U32(x) => spec_u32_to_le_bytes(x),
        OneValue::U64(x) => spec_u64_to_le_bytes(x),
        OneValue::I8(x) => seq![spec_u8_of_i8(x)],
        OneValue::I16(x) => spec_u16_to_le_bytes(spec_u16_of_i16(x)),
        OneValue::I32(x) => spec_u32_to_le_bytes(spec_u32_of_i32(x)),
        OneValue::I64(x) => spec_u64_to_le_bytes(spec_u64_of_i64(x)),
        OneValue::Bool(b) => seq![if b { 1u8 } else { 0u8 }],
        OneValue::F32(bits) => spec_u32_to_le_bytes(bits),
        OneValue::F64(bits) => spec_u64_to_le_bytes(bits),
    }
}

/// The scalars encoded by consecutive `scalar_width(k)`-byte chunks.
pub open spec fn spec_scalar_seq(k: ScalarKind, bytes: Seq<u8>) -> Seq<OneValue>
    decreases bytes.len(),
{
    if bytes.len() < scalar_width(k) || scalar_width(k) == 0 {
        Seq::empty()
    } else {
        seq![spec_scalar_of(k, bytes.take(scalar_width(k) as int))] + spec_scalar_seq(
            k,
            bytes.skip(scalar_width(k) as int),
        )
    }
}

/// The byte run that encodes a sequence of scalar readings.
pub open spec fn spec_seq_bytes(elems: Seq<OneValue>) -> Seq<u8>
    decreases elems.len(),
{
    if elems.len() == 0 {
        Seq::empty()
    } else {
        spec_scalar_bytes(elems[0]) + spec_seq_bytes(elems.drop_first())
    }
}

/// The scalar kind named by a tag, if any.
pub open spec fn spec_scalar_tag(tag: Seq<char>) -> Option<ScalarKind> {
    if tag == "u8"@ {
        Some(ScalarKind::U8)
    } else if tag == "u16"@ {
        Some(ScalarKind::U16)
    } else if tag == "u32"@ {
        Some(ScalarKind::U32)
    } else if tag == "u64"@ {
        Some(ScalarKind::U64)
    } else if tag == "i8"@ {
        Some(ScalarKind::I8)
    } else if tag == "i16"@ {
        Some(ScalarKind::I16)
    } else if tag == "i32"@ {
        Some(ScalarKind::I32)
    } else if tag == "i64"@ {
        Some(ScalarKind::I64)
    } else if tag == "bool"@ {
        Some(ScalarKind::Bool)
    } else if tag == "f32"@ {
        Some(ScalarKind::F32)
    } else if tag == "f64"@ {
        Some(ScalarKind::F64)
    } else {
        None
    }
}

/// The element kind named by a bracketed array tag, if any.
pub open spec fn spec_array_tag(tag: Seq<char>) -> Option<ScalarKind> {
    if tag == "[u8]"@ {
        Some(ScalarKind::U8)
    } else if tag == "[u16]"@ {
        Some(ScalarKind::U16)
    } else if tag == "[u32]"@ {
        Some(ScalarKind::U32)
    } else if tag == "[u64]"@ {
        Some(ScalarKind::U64)
    } else if tag == "[i8]"@ {
        Some(ScalarKind::I8)
    } else if tag == "[i16]"@ {
        Some(ScalarKind::I16)
    } else if tag == "[i32]"@ {
        Some(ScalarKind::I32)
    } else if tag == "[i64]"@ {
        Some(ScalarKind::I64)
    } else if tag == "[bool]"@ {
        Some(ScalarKind::Bool)
    } else if tag == "[f32]"@ {
        Some(ScalarKind::F32)
    } else if tag == "[f64]"@ {
        Some(ScalarKind::F64)
    } else {
        None
    }
}

/// The canonical scalar tag of a kind.
pub open spec fn spec_scalar_tag_chars(k: ScalarKind) -> Seq<char> {
    match k {
        ScalarKind::U8 => "u8"@,
        ScalarKind::U16 => "u16"@,
        ScalarKind::U32 => "u32"@,
        ScalarKind::U64 => "u64"@,
        ScalarKind::I8 => "i8"@,
        ScalarKind::I16 => "i16"@,
        ScalarKind::I32 => "i32"@,
        ScalarKind::I64 => "i64"@,
        ScalarKind::Bool => "bool"@,
        ScalarKind::F32 => "f32"@,
        ScalarKind::F64 => "f64"@,
    }
}

/// The canonical array tag of an element kind.
pub open spec fn spec_array_tag_chars(k: ScalarKind) -> Seq<char> {
    match k {
        ScalarKind::U8 => "[u8]"@,
        ScalarKind::U16 => "[u16]"@,
        ScalarKind::U32 => "[u32]"@,
        ScalarKind::U64 => "[u64]"@,
        ScalarKind::I8 => "[i8]"@,
        ScalarKind::I16 => "[i16]"@,
        ScalarKind::I32 => "[i32]"@,
        ScalarKind::I64 => "[i64]"@,
        ScalarKind::Bool => "[bool]"@,
        ScalarKind::F32 => "[f32]"@,
        ScalarKind::F64 => "[f64]"@,
    }
}

/// What decoding a tag and a byte run yields: a value, or the expected
/// and actual byte counts of a length failure.
pub open spec fn spec_decode(tag: Seq<char>, bytes: Seq<u8>) -> Result<ValueModel, (int, int)> {
    match spec_scalar_tag(tag) {
        Some(k) => if bytes.len() == scalar_width(k) {
            Ok(ValueModel::One(spec_scalar_of(k, bytes)))
        } else {
            Err((scalar_width(k) as int, bytes.len() as int))
        },
        None => match spec_array_tag(tag) {
            Some(k) => if bytes.len() as int % (scalar_width(k) as int) == 0 {
                Ok(ValueModel::Many(k, spec_scalar_seq(k, bytes)))
            } else {
                Err((scalar_width(k) as int, bytes.len() as int % (scalar_width(k) as int)))
            },
            None => Ok(ValueModel::Unknown(tag, bytes)),
        },
    }
}

/// Byte width of one scalar of the given kind.
pub fn scalar_kind_width(k: ScalarKind) -> (w: usize)
    ensures
        w == scalar_width(k),
{
    match k {
        ScalarKind::U8 => 1,
        ScalarKind::U16 => 2,
        ScalarKind::U32 => 4,
        ScalarKind::U64 => 8,
        ScalarKind::I8 => 1,
        ScalarKind::I16 => 2,
        ScalarKind::I32 => 4,
        ScalarKind::I64 => 8,
        ScalarKind::Bool => 1,
        ScalarKind::F32 => 4,
        ScalarKind::F64 => 8,
    }
}

fn i8_from_u8(u: u8) -> (r: i8)
    ensures
        r == spec_i8_from_u8(u),
{
    if u < 0x80 {
        u as i8
    } else {
        -((0xffu8 - u) as i8) - 1
    }
}

fn i16_from_u16(u: u16) -> (r: i16)
    ensures
        r == spec_i16_from_u16(u),
{
    if u < 0x8000 {
        u as i16
    } else {
        -((0xffffu16 - u) as i16) - 1
    }
}

fn i32_from_u32(u: u32) -> (r: i32)
    ensures
        r == spec_i32_from_u32(u),
{
    if u < 0x80000000 {
        u as i32
    } else {
        -((0xffffffffu32 - u) as i32) - 1
    }
}

fn i64_from_u64(u: u64) -> (r: i64)
    ensures
        r == spec_i64_from_u64(u),
{
    if u < 0x8000000000000000 {
        u as i64
    } else {
        -((0xffffffffffffffffu64 - u) as i64) - 1
    }
}

fn u8_of_i8(x: i8) -> (r: u8)
    ensures
        r == spec_u8_of_i8(x),
{
    if x >= 0 {
        x as u8
    } else {
        0xffu8 - ((-(x + 1)) as u8)
    }
}

fn u16_of_i16(x: i16) -> (r: u16)
    ensures
        r == spec_u16_of_i16(x),
{
    if x >= 0 {
        x as u16
    } else {
        0xffffu16 - ((-(x + 1)) as u16)
    }
}

fn u32_of_i32(x: i32) -> (r: u32)
    ensures
        r == spec_u32_of_i32(x),
{
    if x >= 0 {
        x as u32
    } else {
        0xffffffffu32 - ((-(x + 1)) as u32)
    }
}

fn u64_of_i64(x: i64) -> (r: u64)
    ensures
        r == spec_u64_of_i64(x),
{
    if x >= 0 {
        x as u64
    } else {
        0xffffffffffffffffu64 - ((-(x + 1)) as u64)
    }
}

/// Decode one scalar from exactly `scalar_width(k)` little-endian bytes.
fn decode_scalar(k: ScalarKind, bytes: &[u8]) -> (r: OneValue)
    requires
        bytes@.len() == scalar_width(k),
    ensures
        r == spec_scalar_of(k, bytes@),
{
    match k {
        ScalarKind::U8 => OneValue::U8(bytes[0]),
        ScalarKind::U16 => OneValue::U16(u16_from_le_bytes(bytes)),
        ScalarKind::U32 => OneValue::U32(u32_from_le_bytes(bytes)),
        ScalarKind::U64 => OneValue::U64(u64_from_le_bytes(bytes)),
        ScalarKind::I8 => OneValue::I8(i8_from_u8(bytes[0])),
        ScalarKind::I16 => OneValue::I16(i16_from_u16(u16_from_le_bytes(bytes))),
        ScalarKind::I32 => OneValue::I32(i32_from_u32(u32_from_le_bytes(bytes))),
        ScalarKind::I64 => OneValue::I64(i64_from_u64(u64_from_le_bytes(bytes))),
        ScalarKind::Bool => OneValue::Bool(bytes[0] != 0),
        ScalarKind::F32 => OneValue::F32(u32_from_le_bytes(bytes)),
        ScalarKind::F64 => OneValue::F64(u64_from_le_bytes(bytes)),
    }
}

impl OneValue {
    /// The scalar kind of this reading.
    pub fn kind(&self) -> (k: ScalarKind)
        ensures
            k == spec_kind_of(*self),
    {
        match self {
            OneValue::U8(_) => ScalarKind::U8,
            OneValue::U16(_) => ScalarKind::U16,
            OneValue::U32(_) => ScalarKind::U32,
            OneValue::U64(_) => ScalarKind::U64,
            OneValue::I8(_) => ScalarKind::I8,
            OneValue::I16(_) => ScalarKind::I16,
            OneValue::I32(_) => ScalarKind::I32,
            OneValue::I64(_) => ScalarKind::I64,
            OneValue::Bool(_) => ScalarKind::Bool,
            OneValue::F32(_) => ScalarKind::F32,
            OneValue::F64(_) => ScalarKind::F64,
        }
    }

    /// The little-endian wire bytes of this reading.
    pub fn encode(&self) -> (r: Vec<u8>)
        ensures
            r@ == spec_scalar_bytes(*self),
    {
        match self {
            OneValue::U8(x) => {
                let mut v: Vec<u8> = Vec::new();
                v.push(*x);
                proof {
                    assert(v@ =~= seq![*x]);
                }
                v
            },
            OneValue::U16(x) => u16_to_le_bytes(*x),
            OneValue::U32(x) => u32_to_le_bytes(*x),
            OneValue::U64(x) => u64_to_le_bytes(*x),
            OneValue::I8(x) => {
                let mut v: Vec<u8> = Vec::new();
                v.push(u8_of_i8(*x));
                proof {
                    assert(v@ =~= seq![spec_u8_of_i8(*x)]);
                }
                v
            },
            OneValue::I16(x) => u16_to_le_bytes(u16_of_i16(*x)),
            OneValue::I32(x) => u32_to_le_bytes(u32_of_i32(*x)),
            OneValue::I64(x) => u64_to_le_bytes(u64_of_i64(*x)),
            OneValue::Bool(b) => {
                let mut v: Vec<u8> = Vec::new();
                v.push(if *b {
                    1
                } else {
                    0
                });
                proof {
                    assert(v@ =~= seq![if *b { 1u8 } else { 0u8 }]);
                }
                v
            },
            OneValue::F32(bits) => u32_to_le_bytes(*bits),
            OneValue::F64(bits) => u64_to_le_bytes(*bits),
        }
    }
}

/// Arithmetic for stepping through a byte run one whole chunk at a time.
proof fn lemma_chunk_step(len: int, i: int, w: int)
    requires
        w >= 1,
        0 <= i < len,
        len % w == 0,
        i % w == 0,
    ensures
        i + w <= len,
        (i + w) % w == 0,
{
    lemma_small_mod(0nat, w as nat);
    lemma_sub_mod_noop(len, i, w);
    if len - i < w {
        lemma_small_mod((len - i) as nat, w as nat);
    }
    lemma_mod_add_multiples_vanish(i, w);
}

/// Decode a byte run into consecutive fixed-width scalars.
fn decode_chunks(k: ScalarKind, bytes: &[u8]) -> (r: Vec<OneValue>)
    requires
        bytes@.len() as int % (scalar_width(k) as int) == 0,
    ensures
        r@ == spec_scalar_seq(k, bytes@),
{
    let w = scalar_kind_width(k);
    let mut out: Vec<OneValue> = Vec::new();
    let mut i: usize = 0;
    proof {
        assert(bytes@.skip(0) =~= bytes@);
        assert(out@ + spec_scalar_seq(k, bytes@) =~= spec_scalar_seq(k, bytes@));
    }
    while i < bytes.len()
        invariant
            w == scalar_width(k),
            1 <= w,
            i <= bytes@.len(),
            i as int % (w as int) == 0,
            bytes@.len() as int % (w as int) == 0,
            out@ + spec_scalar_seq(k, bytes@.skip(i as int)) == spec_scalar_seq(k, bytes@),
        decreases bytes@.len() - i,
    {
        proof {
            lemma_chunk_step(bytes@.len() as int, i as int, w as int);
        }
        let chunk = &bytes[i..i + w];
        let s = decode_scalar(k, chunk);
        proof {
            assert(bytes@.skip(i as int).take(w as int) =~= chunk@);
            assert(bytes@.skip(i as int).skip(w as int) =~= bytes@.skip(i as int + w as int));
            assert(spec_scalar_seq(k, bytes@.skip(i as int)) == seq![s] + spec_scalar_seq(
                k,
                bytes@.skip(i as int + w as int),
            ));
        }
        out.push(s);
        proof {
            assert(out@ + spec_scalar_seq(k, bytes@.skip(i as int + w as int)) =~= spec_scalar_seq(
                k,
                bytes@,
            ));
        }
        i += w;
    }
    proof {
        assert(bytes@.skip(bytes@.len() as int) =~= Seq::<u8>::empty());
        assert(out@ =~= spec_scalar_seq(k, bytes@));
    }
    out
}

/// Encode consecutive scalars as one byte run.
fn encode_scalars(elems: &[OneValue]) -> (r: Vec<u8>)
    ensures
        r@ == spec_seq_bytes(elems@),
{
    let mut out: Vec<u8> = Vec::new();
    let mut j: usize = 0;
    proof {
        assert(elems@.skip(0) =~= elems@);
        assert(out@ + spec_seq_bytes(elems@) =~= spec_seq_bytes(elems@));
    }
    while j < elems.len()
        invariant
            j <= elems@.len(),
            out@ + spec_seq_bytes(elems@.skip(j as int)) == spec_seq_bytes(elems@),
        decreases elems@.len() - j,
    {
        let mut b = elems[j].encode();
        proof {
            assert(elems@.skip(j as int).drop_first() =~= elems@.skip(j as int + 1));
            assert(spec_seq_bytes(elems@.skip(j as int)) == spec_scalar_bytes(elems@[j as int])
                + spec_seq_bytes(elems@.skip(j as int + 1)));
        }
        out.append(&mut b);
        proof {
            assert(out@ + spec_seq_bytes(elems@.skip(j as int + 1)) =~= spec_seq_bytes(elems@));
        }
        j += 1;
    }
    proof {
        assert(elems@.skip(elems@.len() as int) =~= Seq::<OneValue>::empty());
        assert(out@ =~= spec_seq_bytes(elems@));
    }
    out
}

impl View for ManyValues {
    type V = (ScalarKind, Seq<OneValue>);

    open spec fn view(&self) -> (ScalarKind, Seq<OneValue>) {
        match self {
            ManyValues::U8(v) => (ScalarKind::U8, v@.map_values(|x: u8| OneValue::U8(x))),
            ManyValues::U16(v) => (ScalarKind::U16, v@.map_values(|x: u16| OneValue::U16(x))),
            ManyValues::U32(v) => (ScalarKind::U32, v@.map_values(|x: u32| OneValue::U32(x))),
            ManyValues::U64(v) => (ScalarKind::U64, v@.map_values(|x: u64| OneValue::U64(x))),
            ManyValues::I8(v) => (ScalarKind::I8, v@.map_values(|x: i8| OneValue::I8(x))),
            ManyValues::I16(v) => (ScalarKind::I16, v@.map_values(|x: i16| OneValue::I16(x))),
            ManyValues::I32(v) => (ScalarKind::I32, v@.map_values(|x: i32| OneValue::I32(x))),
            ManyValues::I64(v) => (ScalarKind::I64, v@.map_values(|x: i64| OneValue::I64(x))),
            ManyValues::Bool(v) => (ScalarKind::Bool, v@.map_values(|x: bool| OneValue::Bool(x))),
            ManyValues::F32(v) => (ScalarKind::F32, v@.map_values(|x: u32| OneValue::F32(x))),
            ManyValues::F64(v) => (ScalarKind::F64, v@.map_values(|x: u64| OneValue::F64(x))),
        }
    }
}

fn pack_u8(v: Vec<OneValue>) -> (r: Vec<u8>)
    requires
        forall|m: int| 0 <= m < v@.len() ==> spec_kind_of(v@[m]) == ScalarKind::U8,
    ensures
        r@.map_values(|x: u8| OneValue::U8(x)) == v@,
{
    let mut out: Vec<u8> = Vec::new();
    let mut j: usize = 0;
    while j < v.len()
        invariant
            j <= v@.len(),
            out@.len() == j,
            forall|m: int| 0 <= m < v@.len() ==> spec_kind_of(v@[m]) == ScalarKind::U8,
            forall|m: int| 0 <= m < j ==> v@[m] == OneValue::U8(#[trigger] out@[m]),
        decreases v@.len() - j,
    {
        match v[j] {
            OneValue::U8(x) => {
                out.push(x);
            },
            _ => {
                unreached::<()>()
            },
        }
        j += 1;
    }
    proof {
        assert(out@.map_values(|x: u8| OneValue::U8(x)) =~= v@);
    }
    out
}

fn pack_u16(v: Vec<OneValue>) -> (r: Vec<u16>)
    requires
        forall|m: int| 0 <= m < v@.len() ==> spec_kind_of(v@[m]) == ScalarKind::U16,
    ensures
        r@.map_values(|x: u16| OneValue::U16(x)) == v@,
{
    let mut out: Vec<u16> = Vec::new();
    let mut j: usize = 0;
    while j < v.len()
        invariant
            j <= v@.len(),
            out@.len() == j,
            forall|m: int| 0 <= m < v@.len() ==> spec_kind_of(v@[m]) == ScalarKind::U16,
            forall|m: int| 0 <= m < j ==> v@[m] == OneValue::U16(#[trigger] out@[m]),
        decreases v@.len() - j,
    {
        match v[j] {
            OneValue::U16(x) => {
                out.push(x);
            },
            _ => {
                unreached::<()>()
            },
        }
        j += 1;
    }
    proof {
        assert(out@.map_values(|x: u16| OneValue::U16(x)) =~= v@);
    }
    out
}

fn pack_u32(v: Vec<OneValue>) -> (r: Vec<u32>)
    requires
        forall|m: int| 0 <= m < v@.len() ==> spec_kind_of(v@[m]) == ScalarKind::U32,
    ensures
        r@.map_values(|x: u32| OneValue::U32(x)) == v@,
{
    let mut out: Vec<u32> = Vec::new();
    let mut j: usize = 0;
    while j < v.len()
        invariant
            j <= v@.len(),
            out@.len() == j,
            forall|m: int| 0 <= m < v@.len() ==> spec_kind_of(v@[m]) == ScalarKind::U32,
            forall|m: int| 0 <= m < j ==> v@[m] == OneValue::U32(#[trigger] out@[m]),
        decreases v@.len() - j,
    {
        match v[j] {
            OneValue::U32(x) => {
                out.push(x);
            },
            _ => {
                unreached::<()>()
            },
        }
        j += 1;
    }
    proof {
        assert(out@.map_values(|x: u32| OneValue::U32(x)) =~= v@);
    }
    out
}

fn pack_u64(v: Vec<OneValue>) -> (r: Vec<u64>)
    requires
        forall|m: int| 0 <= m < v@.len() ==> spec_kind_of(v@[m]) == ScalarKind::U64,
    ensures
        r@.map_values(|x: u64| OneValue::U64(x)) == v@,
{
    let mut out: Vec<u64> = Vec::new();
    let mut j: usize = 0;
    while j < v.len()
        invariant
            j <= v@.len(),
            out@.len() == j,
            forall|m: int| 0 <= m < v@.len() ==> spec_kind_of(v@[m]) == ScalarKind::U64,
            forall|m: int| 0 <= m < j ==> v@[m] == OneValue::U64(#[trigger] out@[m]),
        decreases v@.len() - j,
    {
        match v[j] {
            OneValue::U64(x) => {
                out.push(x);
            },
            _ => {
                unreached::<()>()
            },
        }
        j += 1;
    }
    proof {
        assert(out@.map_values(|x: u64| OneValue::U64(x)) =~= v@);
    }
    out
}

fn pack_i8(v: Vec<OneValue>) -> (r: Vec<i8>)
    requires
        forall|m: int| 0 <= m < v@.len() ==> spec_kind_of(v@[m]) == ScalarKind::I8,
    ensures
        r@.map_values(|x: i8| OneValue::I8(x)) == v@,
{
    let mut out: Vec<i8> = Vec::new();
    let mut j: usize = 0;
    while j < v.len()
        invariant
            j <= v@.len(),
            out@.len() == j,
            forall|m: int| 0 <= m < v@.len() ==> spec_kind_of(v@[m]) == ScalarKind::I8,
            forall|m: int| 0 <= m < j ==> v@[m] == OneValue::I8(#[trigger] out@[m]),
        decreases v@.len() - j,
    {
        match v[j] {
            OneValue::I8(x) => {
                out.push(x);
            },
            _ => {
                unreached::<()>()
            },
        }
        j += 1;
    }
    proof {
        assert(out@.map_values(|x: i8| OneValue::I8(x)) =~= v@);
    }
    out
}

fn pack_i16(v: Vec<OneValue>) -> (r: Vec<i16>)
    requires
        forall|m: int| 0 <= m < v@.len() ==> spec_kind_of(v@[m]) == ScalarKind::I16,
    ensures
        r@.map_values(|x: i16| OneValue::I16(x)) == v@,
{
    let mut out: Vec<i16> = Vec::new();
    let mut j: usize = 0;
    while j < v.len()
        invariant
            j <= v@.len(),
            out@.len() == j,
            forall|m: int| 0 <= m < v@.len() ==> spec_kind_of(v@[m]) == ScalarKind::I16,
            forall|m: int| 0 <= m < j ==> v@[m] == OneValue::I16(#[trigger] out@[m]),
        decreases v@.len() - j,
    {
        match v[j] {
            OneValue::I16(x) => {
                out.push(x);
            },
            _ => {
                unreached::<()>()
            },
        }
        j += 1;
    }
    proof {
        assert(out@.map_values(|x: i16| OneValue::I16(x)) =~= v@);
    }
    out
}

fn pack_i32(v: Vec<OneValue>) -> (r: Vec<i32>)
    requires
        forall|m: int| 0 <= m < v@.len() ==> spec_kind_of(v@[m]) == ScalarKind::I32,
    ensures
        r@.map_values(|x: i32| OneValue::I32(x)) == v@,
{
    let mut out: Vec<i32> = Vec::new();
    let mut j: usize = 0;
    while j < v.len()
        invariant
            j <= v@.len(),
            out@.len() == j,
            forall|m: int| 0 <= m < v@.len() ==> spec_kind_of(v@[m]) == ScalarKind::I32,
            forall|m: int| 0 <= m < j ==> v@[m] == OneValue::I32(#[trigger] out@[m]),
        decreases v@.len() - j,
    {
        match v[j] {
            OneValue::I32(x) => {
                out.push(x);
            },
            _ => {
                unreached::<()>()
            },
        }
        j += 1;
    }
    proof {
        assert(out@.map_values(|x: i32| OneValue::I32(x)) =~= v@);
    }
    out
}

fn pack_i64(v: Vec<OneValue>) -> (r: Vec<i64>)
    requires
        forall|m: int| 0 <= m < v@.len() ==> spec_kind_of(v@[m]) == ScalarKind::I64,
    ensures
        r@.map_values(|x: i64| OneValue::I64(x)) == v@,
{
    let mut out: Vec<i64> = Vec::new();
    let mut j: usize = 0;
    while j < v.len()
        invariant
            j <= v@.len(),
            out@.len() == j,
            forall|m: int| 0 <= m < v@.len() ==> spec_kind_of(v@[m]) == ScalarKind::I64,
            forall|m: int| 0 <= m < j ==> v@[m] == OneValue::I64(#[trigger] out@[m]),
        decreases v@.len() - j,
    {
        match v[j] {
            OneValue::I64(x) => {
                out.push(x);
            },
            _ => {
                unreached::<()>()
            },
        }
        j += 1;
    }
    proof {
        assert(out@.map_values(|x: i64| OneValue::I64(x)) =~= v@);
    }
    out
}

fn pack_bool(v: Vec<OneValue>) -> (r: Vec<bool>)
    requires
        forall|m: int| 0 <= m < v@.len() ==> spec_kind_of(v@[m]) == ScalarKind::Bool,
    ensures
        r@.map_values(|x: bool| OneValue::Bool(x)) == v@,
{
    let mut out: Vec<bool> = Vec::new();
    let mut j: usize = 0;
    while j < v.len()
        invariant
            j <= v@.len(),
            out@.len() == j,
            forall|m: int| 0 <= m < v@.len() ==> spec_kind_of(v@[m]) == ScalarKind::Bool,
            forall|m: int| 0 <= m < j ==> v@[m] == OneValue::Bool(#[trigger] out@[m]),
        decreases v@.len() - j,
    {
        match v[j] {
            OneValue::Bool(x) => {
                out.push(x);
            },
            _ => {
                unreached::<()>()
            },
        }
        j += 1;
    }
    proof {
        assert(out@.map_values(|x: bool| OneValue::Bool(x)) =~= v@);
    }
    out
}

fn pack_f32(v: Vec<OneValue>) -> (r: Vec<u32>)
    requires
        forall|m: int| 0 <= m < v@.len() ==> spec_kind_of(v@[m]) == ScalarKind::F32,
    ensures
        r@.map_values(|x: u32| OneValue::F32(x)) == v@,
{
    let mut out: Vec<u32> = Vec::new();
    let mut j: usize = 0;
    while j < v.len()
        invariant
            j <= v@.len(),
            out@.len() == j,
            forall|m: int| 0 <= m < v@.len() ==> spec_kind_of(v@[m]) == ScalarKind::F32,
            forall|m: int| 0 <= m < j ==> v@[m] == OneValue::F32(#[trigger] out@[m]),
        decreases v@.len() - j,
    {
        match v[j] {
            OneValue::F32(x) => {
                out.push(x);
            },
            _ => {
                unreached::<()>()
            },
        }
        j += 1;
    }
    proof {
        assert(out@.map_values(|x: u32| OneValue::F32(x)) =~= v@);
    }
    out
}

fn pack_f64(v: Vec<OneValue>) -> (r: Vec<u64>)
    requires
        forall|m: int| 0 <= m < v@.len() ==> spec_kind_of(v@[m]) == ScalarKind::F64,
    ensures
        r@.map_values(|x: u64| OneValue::F64(x)) == v@,
{
    let mut out: Vec<u64> = Vec::new();
    let mut j: usize = 0;
    while j < v.len()
        invariant
            j <= v@.len(),
            out@.len() == j,
            forall|m: int| 0 <= m < v@.len() ==> spec_kind_of(v@[m]) == ScalarKind::F64,
            forall|m: int| 0 <= m < j ==> v@[m] == OneValue::F64(#[trigger] out@[m]),
        decreases v@.len() - j,
    {
        match v[j] {
            OneValue::F64(x) => {
                out.push(x);
            },
            _ => {
                unreached::<()>()
            },
        }
        j += 1;
    }
    proof {
        assert(out@.map_values(|x: u64| OneValue::F64(x)) =~= v@);
    }
    out
}

impl ManyValues {
    /// The element kind of this array.
    pub fn kind(&self) -> (k: ScalarKind)
        ensures
            k == self@.0,
    {
        match self {
            ManyValues::U8(_) => ScalarKind::U8,
            ManyValues::U16(_) => ScalarKind::U16,
            ManyValues::U32(_) => ScalarKind::U32,
            ManyValues::U64(_) => ScalarKind::U64,
            ManyValues::I8(_) => ScalarKind::I8,
            ManyValues::I16(_) => ScalarKind::I16,
            ManyValues::I32(_) => ScalarKind::I32,
            ManyValues::I64(_) => ScalarKind::I64,
            ManyValues::Bool(_) => ScalarKind::Bool,
            ManyValues::F32(_) => ScalarKind::F32,
            ManyValues::F64(_) => ScalarKind::F64,
        }
    }

    /// The elements of this array, widened to scalar readings.
    pub fn elements(&self) -> (r: Vec<OneValue>)
        ensures
            r@ == self@.1,
    {
        match self {
            ManyValues::U8(v) => {
                let mut out: Vec<OneValue> = Vec::new();
                let mut j: usize = 0;
                while j < v.len()
                    invariant
                        j <= v@.len(),
                        out@ == v@.take(j as int).map_values(|x: u8| OneValue::U8(x)),
                    decreases v@.len() - j,
                {
                    out.push(OneValue::U8(v[j]));
                    proof {
                        assert(out@ =~= v@.take(j as int + 1).map_values(
                            |x: u8| OneValue::U8(x),
                        ));
                    }
                    j += 1;
                }
                proof {
                    assert(v@.take(v@.len() as int) =~= v@);
                }
                out
            },
            ManyValues::U16(v) => {
                let mut out: Vec<OneValue> = Vec::new();
                let mut j: usize = 0;
                while j < v.len()
                    invariant
                        j <= v@.len(),
                        out@ == v@.take(j as int).map_values(|x: u16| OneValue::U16(x)),
                    decreases v@.len() - j,
                {
                    out.push(OneValue::U16(v[j]));
                    proof {
                        assert(out@ =~= v@.take(j as int + 1).map_values(
                            |x: u16| OneValue::U16(x),
                        ));
                    }
                    j += 1;
                }
                proof {
                    assert(v@.take(v@.len() as int) =~= v@);
                }
                out
            },
            ManyValues::U32(v) => {
                let mut out: Vec<OneValue> = Vec::new();
                let mut j: usize = 0;
                while j < v.len()
                    invariant
                        j <= v@.len(),
                        out@ == v@.take(j as int).map_values(|x: u32| OneValue::U32(x)),
                    decreases v@.len() - j,
                {
                    out.push(OneValue::U32(v[j]));
                    proof {
                        assert(out@ =~= v@.take(j as int + 1).map_values(
                            |x: u32| OneValue::U32(x),
                        ));
                    }
                    j += 1;
                }
                proof {
                    assert(v@.take(v@.len() as int) =~= v@);
                }
                out
            },
            ManyValues::U64(v) => {
                let mut out: Vec<OneValue> = Vec::new();
                let mut j: usize = 0;
                while j < v.len()
                    invariant
                        j <= v@.len(),
                        out@ == v@.take(j as int).map_values(|x: u64| OneValue::U64(x)),
                    decreases v@.len() - j,
                {
                    out.push(OneValue::U64(v[j]));
                    proof {
                        assert(out@ =~= v@.take(j as int + 1).map_values(
                            |x: u64| OneValue::U64(x),
                        ));
                    }
                    j += 1;
                }
                proof {
                    assert(v@.take(v@.len() as int) =~= v@);
                }
                out
            },
            ManyValues::I8(v) => {
                let mut out: Vec<OneValue> = Vec::new();
                let mut j: usize = 0;
                while j < v.len()
                    invariant
                        j <= v@.len(),
                        out@ == v@.take(j as int).map_values(|x: i8| OneValue::I8(x)),
                    decreases v@.len() - j,
                {
                    out.push(OneValue::I8(v[j]));
                    proof {
                        assert(out@ =~= v@.take(j as int + 1).map_values(
                            |x: i8| OneValue::I8(x),
                        ));
                    }
                    j += 1;
                }
                proof {
                    assert(v@.take(v@.len() as int) =~= v@);
                }
                out
            },
            ManyValues::I16(v) => {
                let mut out: Vec<OneValue> = Vec::new();
                let mut j: usize = 0;
                while j < v.len()
                    invariant
                        j <= v@.len(),
                        out@ == v@.take(j as int).map_values(|x: i16| OneValue::I16(x)),
                    decreases v@.len() - j,
                {
                    out.push(OneValue::I16(v[j]));
                    proof {
                        assert(out@ =~= v@.take(j as int + 1).map_values(
                            |x: i16| OneValue::I16(x),
                        ));
                    }
                    j += 1;
                }
                proof {
                    assert(v@.take(v@.len() as int) =~= v@);
                }
                out
            },
            ManyValues::I32(v) => {
                let mut out: Vec<OneValue> = Vec::new();
                let mut j: usize = 0;
                while j < v.len()
                    invariant
                        j <= v@.len(),
                        out@ == v@.take(j as int).map_values(|x: i32| OneValue::I32(x)),
                    decreases v@.len() - j,
                {
                    out.push(OneValue::I32(v[j]));
                    proof {
                        assert(out@ =~= v@.take(j as int + 1).map_values(
                            |x: i32| OneValue::I32(x),
                        ));
                    }
                    j += 1;
                }
                proof {
                    assert(v@.take(v@.len() as int) =~= v@);
                }
                out
            },
            ManyValues::I64(v) => {
                let mut out: Vec<OneValue> = Vec::new();
                let mut j: usize = 0;
                while j < v.len()
                    invariant
                        j <= v@.len(),
                        out@ == v@.take(j as int).map_values(|x: i64| OneValue::I64(x)),
                    decreases v@.len() - j,
                {
                    out.push(OneValue::I64(v[j]));
                    proof {
                        assert(out@ =~= v@.take(j as int + 1).map_values(
                            |x: i64| OneValue::I64(x),
                        ));
                    }
                    j += 1;
                }
                proof {
                    assert(v@.take(v@.len() as int) =~= v@);
                }
                out
            },
            ManyValues::Bool(v) => {
                let mut out: Vec<OneValue> = Vec::new();
                let mut j: usize = 0;
                while j < v.len()
                    invariant
                        j <= v@.len(),
                        out@ == v@.take(j as int).map_values(|x: bool| OneValue::Bool(x)),
                    decreases v@.len() - j,
                {
                    out.push(OneValue::Bool(v[j]));
                    proof {
                        assert(out@ =~= v@.take(j as int + 1).map_values(
                            |x: bool| OneValue::Bool(x),
                        ));
                    }
                    j += 1;
                }
                proof {
                    assert(v@.take(v@.len() as int) =~= v@);
                }
                out
            },
            ManyValues::F32(v) => {
                let mut out: Vec<OneValue> = Vec::new();
                let mut j: usize = 0;
                while j < v.len()
                    invariant
                        j <= v@.len(),
                        out@ == v@.take(j as int).map_values(|x: u32| OneValue::F32(x)),
                    decreases v@.len() - j,
                {
                    out.push(OneValue::F32(v[j]));
                    proof {
                        assert(out@ =~= v@.take(j as int + 1).map_values(
                            |x: u32| OneValue::F32(x),
                        ));
                    }
                    j += 1;
                }
                proof {
                    assert(v@.take(v@.len() as int) =~= v@);
                }
                out
            },
            ManyValues::F64(v) => {
                let mut out: Vec<OneValue> = Vec::new();
                let mut j: usize = 0;
                while j < v.len()
                    invariant
                        j <= v@.len(),
                        out@ == v@.take(j as int).map_values(|x: u64| OneValue::F64(x)),
                    decreases v@.len() - j,
                {
                    out.push(OneValue::F64(v[j]));
                    proof {
                        assert(out@ =~= v@.take(j as int + 1).map_values(
                            |x: u64| OneValue::F64(x),
                        ));
                    }
                    j += 1;
                }
                proof {
                    assert(v@.take(v@.len() as int) =~= v@);
                }
                out
            },
        }
    }

    /// The little-endian wire bytes of this array.
    pub fn encode(&self) -> (r: Vec<u8>)
        ensures
            r@ == spec_seq_bytes(self@.1),
    {
        let elems = self.elements();
        encode_scalars(elems.as_slice())
    }
}


impl View for MetricValue {
    type V = ValueModel;

    open spec fn view(&self) -> ValueModel {
        match self {
            MetricValue::One(s) => ValueModel::One(*s),
            MetricValue::Many(m) => ValueModel::Many(m@.0, m@.1),
            MetricValue::Unknown(tag, bytes) => ValueModel::Unknown(tag@, bytes@),
        }
    }
}

/// Every scalar cut from a byte run by chunking has the chunk kind.
proof fn lemma_scalar_seq_kinds(k: ScalarKind, b: Seq<u8>)
    ensures
        forall|m: int|
            0 <= m < spec_scalar_seq(k, b).len() ==> spec_kind_of(
                #[trigger] spec_scalar_seq(k, b)[m],
            ) == k,
    decreases b.len(),
{
    if b.len() < scalar_width(k) || scalar_width(k) == 0 {
    } else {
        lemma_scalar_seq_kinds(k, b.skip(scalar_width(k) as int));
    }
}

/// Decode a byte run against a scalar kind, demanding the exact width.
fn decode_scalar_tagged(k: ScalarKind, bytes: &[u8]) -> (r: Result<MetricValue, MetricValueError>)
    ensures
        bytes@.len() == scalar_width(k) ==> (r matches Ok(mv) && mv@ == ValueModel::One(
            spec_scalar_of(k, bytes@),
        )),
        bytes@.len() != scalar_width(k) ==> r == Err::<MetricValue, MetricValueError>(
            MetricValueError::BadLength {
                expected: scalar_width(k) as usize,
                got: bytes@.len() as usize,
            },
        ),
{
    let w = scalar_kind_width(k);
    if bytes.len() == w {
        Ok(MetricValue::One(decode_scalar(k, bytes)))
    } else {
        Err(MetricValueError::BadLength { expected: w, got: bytes.len() })
    }
}

/// Decode a byte run against an array kind, demanding whole chunks.
fn decode_array_tagged(k: ScalarKind, bytes: &[u8]) -> (r: Result<MetricValue, MetricValueError>)
    ensures
        bytes@.len() as int % (scalar_width(k) as int) == 0 ==> (r matches Ok(mv) && mv@
            == ValueModel::Many(k, spec_scalar_seq(k, bytes@))),
        bytes@.len() as int % (scalar_width(k) as int) != 0 ==> r == Err::<
            MetricValue,
            MetricValueError,
        >(
            MetricValueError::BadLength {
                expected: scalar_width(k) as usize,
                got: (bytes@.len() as int % (scalar_width(k) as int)) as usize,
            },
        ),
{
    let w = scalar_kind_width(k);
    if bytes.len() % w == 0 {
        let elems = decode_chunks(k, bytes);
        proof {
            lemma_scalar_seq_kinds(k, bytes@);
        }
        let many = match k {
            ScalarKind::U8 => ManyValues::U8(pack_u8(elems)),
            ScalarKind::U16 => ManyValues::U16(pack_u16(elems)),
            ScalarKind::U32 => ManyValues::U32(pack_u32(elems)),
            ScalarKind::U64 => ManyValues::U64(pack_u64(elems)),
            ScalarKind::I8 => ManyValues::I8(pack_i8(elems)),
            ScalarKind::I16 => ManyValues::I16(pack_i16(elems)),
            ScalarKind::I32 => ManyValues::I32(pack_i32(elems)),
            ScalarKind::I64 => ManyValues::I64(pack_i64(elems)),
            ScalarKind::Bool => ManyValues::Bool(pack_bool(elems)),
            ScalarKind::F32 => ManyValues::F32(pack_f32(elems)),
            ScalarKind::F64 => ManyValues::F64(pack_f64(elems)),
        };
        Ok(MetricValue::Many(many))
    } else {
        Err(MetricValueError::BadLength { expected: w, got: bytes.len() % w })
    }
}

impl MetricValue {
    /// Decode a type tag and raw value bytes into a typed value.
    ///
    /// A recognized scalar tag demands exactly its width in bytes and a
    /// recognized array tag a whole number of element chunks; the error
    /// carries the expected and offending byte counts. Any other tag is
    /// kept verbatim with its bytes: that path cannot fail.
    pub fn from_bytes(ty: String, bytes: &[u8]) -> (r: Result<MetricValue, MetricValueError>)
        ensures
            spec_decode(ty@, bytes@) matches Ok(v) ==> (r matches Ok(mv) && mv@ == v),
            spec_decode(ty@, bytes@) matches Err(eg) ==> r == Err::<MetricValue, MetricValueError>(
                MetricValueError::BadLength { expected: eg.0 as usize, got: eg.1 as usize },
            ),
    {
        let t = ty.as_str();
        if str_eq_str(t, "u8") {
            decode_scalar_tagged(ScalarKind::U8, bytes)
        } else if str_eq_str(t, "u16") {
            decode_scalar_tagged(ScalarKind::U16, bytes)
        } else if str_eq_str(t, "u32") {
            decode_scalar_tagged(ScalarKind::U32, bytes)
        } else if str_eq_str(t, "u64") {
            decode_scalar_tagged(ScalarKind::U64, bytes)
        } else if str_eq_str(t, "i8") {
            decode_scalar_tagged(ScalarKind::I8, bytes)
        } else if str_eq_str(t, "i16") {
            decode_scalar_tagged(ScalarKind::I16, bytes)
        } else if str_eq_str(t, "i32") {
            decode_scalar_tagged(ScalarKind::I32, bytes)
        } else if str_eq_str(t, "i64") {
            decode_scalar_tagged(ScalarKind::I64, bytes)
        } else if str_eq_str(t, "bool") {
            decode_scalar_tagged(ScalarKind::Bool, bytes)
        } else if str_eq_str(t, "f32") {
            decode_scalar_tagged(ScalarKind::F32, bytes)
        } else if str_eq_str(t, "f64") {
            decode_scalar_tagged(ScalarKind::F64, bytes)
        } else if str_eq_str(t, "[u8]") {
            decode_array_tagged(ScalarKind::U8, bytes)
        } else if str_eq_str(t, "[u16]") {
            decode_array_tagged(ScalarKind::U16, bytes)
        } else if str_eq_str(t, "[u32]") {
            decode_array_tagged(ScalarKind::U32, bytes)
        } else if str_eq_str(t, "[u64]") {
            decode_array_tagged(ScalarKind::U64, bytes)
        } else if str_eq_str(t, "[i8]") {
            decode_array_tagged(ScalarKind::I8, bytes)
        } else if str_eq_str(t, "[i16]") {
            decode_array_tagged(ScalarKind::I16, bytes)
        } else if str_eq_str(t, "[i32]") {
            decode_array_tagged(ScalarKind::I32, bytes)
        } else if str_eq_str(t, "[i64]") {
            decode_array_tagged(ScalarKind::I64, bytes)
        } else if str_eq_str(t, "[bool]") {
            decode_array_tagged(ScalarKind::Bool, bytes)
        } else if str_eq_str(t, "[f32]") {
            decode_array_tagged(ScalarKind::F32, bytes)
        } else if str_eq_str(t, "[f64]") {
            decode_array_tagged(ScalarKind::F64, bytes)
        } else {
            Ok(MetricValue::Unknown(ty, slice_to_vec(bytes)))
        }
    }
}

/// The canonical tag of a value, as the consumer displays it.
pub open spec fn spec_ty_chars(v: ValueModel) -> Seq<char> {
    match v {
        ValueModel::One(s) => spec_scalar_tag_chars(spec_kind_of(s)),
        ValueModel::Many(k, _) => spec_array_tag_chars(k),
        ValueModel::Unknown(t, _) => t,
    }
}

/// A scalar widened to 64 unsigned bits, where its kind permits.
pub open spec fn spec_widen_unsigned(s: OneValue) -> Option<u64> {
    match s {
        OneValue::U8(x) => Some(x as u64),
        OneValue::U16(x) => Some(x as u64),
        OneValue::U32(x) => Some(x as u64),
        OneValue::U64(x) => Some(x),
        _ => None,
    }
}

/// A scalar widened to 64 signed bits, where its kind permits.
pub open spec fn spec_widen_signed(s: OneValue) -> Option<i64> {
    match s {
        OneValue::I8(x) => Some(x as i64),
        OneValue::I16(x) => Some(x as i64),
        OneValue::I32(x) => Some(x as i64),
        OneValue::I64(x) => Some(x),
        _ => None,
    }
}

impl MetricValue {
    /// The type tag this value answers to: the canonical tag of a
    /// recognized kind, or the verbatim unknown tag.
    pub fn ty(&self) -> (r: &str)
        ensures
            r@ == spec_ty_chars(self@),
    {
        match self {
            MetricValue::One(s) => match s {
                OneValue::U8(_) => "u8",
                OneValue::U16(_) => "u16",
                OneValue::U32(_) => "u32",
                OneValue::U64(_) => "u64",
                OneValue::I8(_) => "i8",
                OneValue::I16(_) => "i16",
                OneValue::I32(_) => "i32",
                OneValue::I64(_) => "i64",
                OneValue::Bool(_) => "bool",
                OneValue::F32(_) => "f32",
                OneValue::F64(_) => "f64",
            },
            MetricValue::Many(m) => match m {
                ManyValues::U8(_) => "[u8]",
                ManyValues::U16(_) => "[u16]",
                ManyValues::U32(_) => "[u32]",
                ManyValues::U64(_) => "[u64]",
                ManyValues::I8(_) => "[i8]",
                ManyValues::I16(_) => "[i16]",
                ManyValues::I32(_) => "[i32]",
                ManyValues::I64(_) => "[i64]",
                ManyValues::Bool(_) => "[bool]",
                ManyValues::F32(_) => "[f32]",
                ManyValues::F64(_) => "[f64]",
            },
            MetricValue::Unknown(t, _) => t.as_str(),
        }
    }

    /// The scalar boolean carried by this value, if it is one.
    pub fn as_bool(&self) -> (r: Option<bool>)
        ensures
            r == (match self@ {
                ValueModel::One(OneValue::Bool(b)) => Some(b),
                _ => None::<bool>,
            }),
    {
        match self {
            MetricValue::One(OneValue::Bool(b)) => Some(*b),
            _ => None,
        }
    }

    pub fn is_bool(&self) -> (r: bool)
        ensures
            r == (self@ matches ValueModel::One(OneValue::Bool(_))),
    {
        self.as_bool().is_some()
    }

    /// Any unsigned scalar, widened to 64 bits.
    pub fn as_unsigned_integer(&self) -> (r: Option<u64>)
        ensures
            r == (match self@ {
                ValueModel::One(s) => spec_widen_unsigned(s),
                _ => None::<u64>,
            }),
    {
        match self {
            MetricValue::One(s) => match s {
                OneValue::U8(x) => Some(*x as u64),
                OneValue::U16(x) => Some(*x as u64),
                OneValue::U32(x) => Some(*x as u64),
                OneValue::U64(x) => Some(*x),
                _ => None,
            },
            _ => None,
        }
    }

    pub fn is_unsigned_integer(&self) -> (r: bool)
        ensures
            r == (match self@ {
                ValueModel::One(s) => spec_widen_unsigned(s) is Some,
                _ => false,
            }),
    {
        self.as_unsigned_integer().is_some()
    }

    /// Any signed scalar, widened to 64 bits.
    pub fn as_signed_integer(&self) -> (r: Option<i64>)
        ensures
            r == (match self@ {
                ValueModel::One(s) => spec_widen_signed(s),
                _ => None::<i64>,
            }),
    {
        match self {
            MetricValue::One(s) => match s {
                OneValue::I8(x) => Some(*x as i64),
                OneValue::I16(x) => Some(*x as i64),
                OneValue::I32(x) => Some(*x as i64),
                OneValue::I64(x) => Some(*x),
                _ => None,
            },
            _ => None,
        }
    }

    pub fn is_signed_integer(&self) -> (r: bool)
        ensures
            r == (match self@ {
                ValueModel::One(s) => spec_widen_signed(s) is Some,
                _ => false,
            }),
    {
        self.as_signed_integer().is_some()
    }

    /// The bit pattern of a 32-bit float scalar, if this value is one.
    pub fn as_f32_bits(&self) -> (r: Option<u32>)
        ensures
            r == (match self@ {
                ValueModel::One(OneValue::F32(bits)) => Some(bits),
                _ => None::<u32>,
            }),
    {
        match self {
            MetricValue::One(OneValue::F32(bits)) => Some(*bits),
            _ => None,
        }
    }

    /// The bit pattern of a 64-bit float scalar, if this value is one.
    pub fn as_f64_bits(&self) -> (r: Option<u64>)
        ensures
            r == (match self@ {
                ValueModel::One(OneValue::F64(bits)) => Some(bits),
                _ => None::<u64>,
            }),
    {
        match self {
            MetricValue::One(OneValue::F64(bits)) => Some(*bits),
            _ => None,
        }
    }

    pub fn is_float(&self) -> (r: bool)
        ensures
            r == (self@ matches ValueModel::One(OneValue::F32(_)) || self@ matches ValueModel::One(
                OneValue::F64(_),
            )),
    {
        match self {
            MetricValue::One(OneValue::F32(_)) => true,
            MetricValue::One(OneValue::F64(_)) => true,
            _ => false,
        }
    }

    /// A value can be plotted as a time series exactly when one of the
    /// scalar accessors succeeds, which is to say it is a scalar.
    pub fn is_focusable(&self) -> (r: bool)
        ensures
            r == (self@ matches ValueModel::One(_)),
    {
        self.is_float() || self.is_signed_integer() || self.is_unsigned_integer() || self.is_bool()
    }

    /// The boolean elements of a boolean array.
    pub fn as_bool_iter(&self) -> (r: Option<Vec<bool>>)
        ensures
            r matches Some(v) ==> (self@ matches ValueModel::Many(k, elems) && k
                == ScalarKind::Bool && v@.map_values(|x: bool| OneValue::Bool(x)) == elems),
            r is None ==> !(self@ matches ValueModel::Many(ScalarKind::Bool, _)),
    {
        match self {
            MetricValue::Many(ManyValues::Bool(v)) => {
                let mut out: Vec<bool> = Vec::new();
                let mut j: usize = 0;
                while j < v.len()
                    invariant
                        j <= v@.len(),
                        out@ == v@.take(j as int),
                    decreases v@.len() - j,
                {
                    out.push(v[j]);
                    proof {
                        assert(out@ =~= v@.take(j as int + 1));
                    }
                    j += 1;
                }
                proof {
                    assert(out@ =~= v@);
                }
                Some(out)
            },
            _ => None,
        }
    }

    /// The elements of any unsigned array, widened to 64 bits.
    pub fn as_unsigned_integer_iter(&self) -> (r: Option<Vec<u64>>)
        ensures
            r matches Some(v) ==> (self@ matches ValueModel::Many(k, elems) && (k
                == ScalarKind::U8 || k == ScalarKind::U16 || k == ScalarKind::U32 || k
                == ScalarKind::U64) && v@.len() == elems.len() && (forall|m: int|
                0 <= m < elems.len() ==> spec_widen_unsigned(elems[m]) == Some(#[trigger] v@[m]))),
            r is None ==> !(self@ matches ValueModel::Many(ScalarKind::U8, _) || self@
                matches ValueModel::Many(ScalarKind::U16, _) || self@ matches ValueModel::Many(
                ScalarKind::U32,
                _,
            ) || self@ matches ValueModel::Many(ScalarKind::U64, _)),
    {
        match self {
            MetricValue::Many(ManyValues::U8(v)) => {
                let mut out: Vec<u64> = Vec::new();
                let mut j: usize = 0;
                while j < v.len()
                    invariant
                        j <= v@.len(),
                        out@.len() == j,
                        forall|m: int| 0 <= m < j ==> #[trigger] out@[m] == v@[m] as u64,
                    decreases v@.len() - j,
                {
                    let x = &v[j];
                    out.push(*x as u64);
                    j += 1;
                }
                Some(out)
            },
            MetricValue::Many(ManyValues::U16(v)) => {
                let mut out: Vec<u64> = Vec::new();
                let mut j: usize = 0;
                while j < v.len()
                    invariant
                        j <= v@.len(),
                        out@.len() == j,
                        forall|m: int| 0 <= m < j ==> #[trigger] out@[m] == v@[m] as u64,
                    decreases v@.len() - j,
                {
                    let x = &v[j];
                    out.push(*x as u64);
                    j += 1;
                }
                Some(out)
            },
            MetricValue::Many(ManyValues::U32(v)) => {
                let mut out: Vec<u64> = Vec::new();
                let mut j: usize = 0;
                while j < v.len()
                    invariant
                        j <= v@.len(),
                        out@.len() == j,
                        forall|m: int| 0 <= m < j ==> #[trigger] out@[m] == v@[m] as u64,
                    decreases v@.len() - j,
                {
                    let x = &v[j];
                    out.push(*x as u64);
                    j += 1;
                }
                Some(out)
            },
            MetricValue::Many(ManyValues::U64(v)) => {
                let mut out: Vec<u64> = Vec::new();
                let mut j: usize = 0;
                while j < v.len()
                    invariant
                        j <= v@.len(),
                        out@.len() == j,
                        forall|m: int| 0 <= m < j ==> #[trigger] out@[m] == v@[m] as u64,
                    decreases v@.len() - j,
                {
                    let x = &v[j];
                    out.push(*x);
                    j += 1;
                }
                Some(out)
            },
            _ => None,
        }
    }

    /// The elements of any signed array, widened to 64 bits.
    pub fn as_signed_integer_iter(&self) -> (r: Option<Vec<i64>>)
        ensures
            r matches Some(v) ==> (self@ matches ValueModel::Many(k, elems) && (k
                == ScalarKind::I8 || k == ScalarKind::I16 || k == ScalarKind::I32 || k
                == ScalarKind::I64) && v@.len() == elems.len() && (forall|m: int|
                0 <= m < elems.len() ==> spec_widen_signed(elems[m]) == Some(#[trigger] v@[m]))),
            r is None ==> !(self@ matches ValueModel::Many(ScalarKind::I8, _) || self@
                matches ValueModel::Many(ScalarKind::I16, _) || self@ matches ValueModel::Many(
                ScalarKind::I32,
                _,
            ) || self@ matches ValueModel::Many(ScalarKind::I64, _)),
    {
        match self {
            MetricValue::Many(ManyValues::I8(v)) => {
                let mut out: Vec<i64> = Vec::new();
                let mut j: usize = 0;
                while j < v.len()
                    invariant
                        j <= v@.len(),
                        out@.len() == j,
                        forall|m: int| 0 <= m < j ==> #[trigger] out@[m] == v@[m] as i64,
                    decreases v@.len() - j,
                {
                    let x = &v[j];
                    out.push(*x as i64);
                    j += 1;
                }
                Some(out)
            },
            MetricValue::Many(ManyValues::I16(v)) => {
                let mut out: Vec<i64> = Vec::new();
                let mut j: usize = 0;
                while j < v.len()
                    invariant
                        j <= v@.len(),
                        out@.len() == j,
                        forall|m: int| 0 <= m < j ==> #[trigger] out@[m] == v@[m] as i64,
                    decreases v@.len() - j,
                {
                    let x = &v[j];
                    out.push(*x as i64);
                    j += 1;
                }
                Some(out)
            },
            MetricValue::Many(ManyValues::I32(v)) => {
                let mut out: Vec<i64> = Vec::new();
                let mut j: usize = 0;
                while j < v.len()
                    invariant
                        j <= v@.len(),
                        out@.len() == j,
                        forall|m: int| 0 <= m < j ==> #[trigger] out@[m] == v@[m] as i64,
                    decreases v@.len() - j,
                {
                    let x = &v[j];
                    out.push(*x as i64);
                    j += 1;
                }
                Some(out)
            },
            MetricValue::Many(ManyValues::I64(v)) => {
                let mut out: Vec<i64> = Vec::new();
                let mut j: usize = 0;
                while j < v.len()
                    invariant
                        j <= v@.len(),
                        out@.len() == j,
                        forall|m: int| 0 <= m < j ==> #[trigger] out@[m] == v@[m] as i64,
                    decreases v@.len() - j,
                {
                    let x = &v[j];
                    out.push(*x);
                    j += 1;
                }
                Some(out)
            },
            _ => None,
        }
    }

    /// The bit patterns of a 32-bit float array's elements.
    pub fn as_f32_bits_iter(&self) -> (r: Option<Vec<u32>>)
        ensures
            r matches Some(v) ==> (self@ matches ValueModel::Many(k, elems) && k
                == ScalarKind::F32 && v@.map_values(|x: u32| OneValue::F32(x)) == elems),
            r is None ==> !(self@ matches ValueModel::Many(ScalarKind::F32, _)),
    {
        match self {
            MetricValue::Many(ManyValues::F32(v)) => {
                let mut out: Vec<u32> = Vec::new();
                let mut j: usize = 0;
                while j < v.len()
                    invariant
                        j <= v@.len(),
                        out@ == v@.take(j as int),
                    decreases v@.len() - j,
                {
                    out.push(v[j]);
                    proof {
                        assert(out@ =~= v@.take(j as int + 1));
                    }
                    j += 1;
                }
                proof {
                    assert(out@ =~= v@);
                }
                Some(out)
            },
            _ => None,
        }
    }

    /// The bit patterns of a 64-bit float array's elements.
    pub fn as_f64_bits_iter(&self) -> (r: Option<Vec<u64>>)
        ensures
            r matches Some(v) ==> (self@ matches ValueModel::Many(k, elems) && k
                == ScalarKind::F64 && v@.map_values(|x: u64| OneValue::F64(x)) == elems),
            r is None ==> !(self@ matches ValueModel::Many(ScalarKind::F64, _)),
    {
        match self {
            MetricValue::Many(ManyValues::F64(v)) => {
                let mut out: Vec<u64> = Vec::new();
                let mut j: usize = 0;
                while j < v.len()
                    invariant
                        j <= v@.len(),
                        out@ == v@.take(j as int),
                    decreases v@.len() - j,
                {
                    out.push(v[j]);
                    proof {
                        assert(out@ =~= v@.take(j as int + 1));
                    }
                    j += 1;
                }
                proof {
                    assert(out@ =~= v@);
                }
                Some(out)
            },
            _ => None,
        }
    }

    /// The raw wire bytes this value encodes to.
    pub fn wire_bytes(&self) -> (r: Vec<u8>)
        ensures
            r@ == (match self@ {
                ValueModel::One(s) => spec_scalar_bytes(s),
                ValueModel::Many(_, elems) => spec_seq_bytes(elems),
                ValueModel::Unknown(_, b) => b,
            }),
    {
        match self {
            MetricValue::One(s) => s.encode(),
            MetricValue::Many(m) => m.encode(),
            MetricValue::Unknown(_, b) => {
                let mut out: Vec<u8> = Vec::new();
                let mut j: usize = 0;
                while j < b.len()
                    invariant
                        j <= b@.len(),
                        out@ == b@.take(j as int),
                    decreases b@.len() - j,
                {
                    out.push(b[j]);
                    proof {
                        assert(out@ =~= b@.take(j as int + 1));
                    }
                    j += 1;
                }
                proof {
                    assert(out@ =~= b@);
                }
                out
            },
        }
    }
}

} // verus!
