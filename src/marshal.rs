use vstd::prelude::*;

use crate::status::CallError;

verus! {

/// The record exchanged with the compartment: a signed 32-bit integer and a
/// 32-bit float, the float held as its IEEE-754 bit pattern.
#[derive(Clone, Copy, Debug, PartialEq, Eq, Structural)]
pub struct MyStruct {
    pub i: i32,
    pub f_bits: u32,
}

/// Bytes in the encoding of one record.
pub const RECORD_LEN: usize = 8;

/// The four bytes of `x`, least significant first.
pub open spec fn le_bytes(x: u32) -> Seq<u8> {
    seq![
        (x & 0xff) as u8,
        ((x >> 8u32) & 0xff) as u8,
        ((x >> 16u32) & 0xff) as u8,
        ((x >> 24u32) & 0xff) as u8,
    ]
}

/// The integer whose bytes, least significant first, are `b0` to `b3`.
pub open spec fn le_value(b0: u8, b1: u8, b2: u8, b3: u8) -> u32 {
    (b0 as u32) | ((b1 as u32) << 8u32) | ((b2 as u32) << 16u32) | ((b3 as u32) << 24u32)
}

/// The encoding of a record: each field in order, in four little-endian bytes.
pub open spec fn encoded(r: MyStruct) -> Seq<u8> {
    le_bytes(r.i as u32) + le_bytes(r.f_bits)
}

/// The record that a buffer decodes to: the first eight bytes are read and
/// any that follow are ignored; a shorter buffer does not decode.
pub open spec fn decoded(b: Seq<u8>) -> Option<MyStruct> {
    if b.len() < RECORD_LEN {
        None
    } else {
        Some(
            MyStruct {
                i: le_value(b[0], b[1], b[2], b[3]) as i32,
                f_bits: le_value(b[4], b[5], b[6], b[7]),
            },
        )
    }
}

/// Relies on bincode::serialize: with its default fixed-width little-endian
/// integers and no size limit, a pair of 32-bit integers always encodes to the
/// four bytes of each in order.
#[verifier::external_body]
fn bincode_encode_pair(i: i32, bits: u32) -> (r: Option<Vec<u8>>)
    ensures
        r is Some,
        r.unwrap()@ == le_bytes(i as u32) + le_bytes(bits),
{
    bincode::serialize(&(i, bits)).ok()
}

/// Relies on bincode::deserialize: a pair of 32-bit integers is read from the
/// first eight bytes, four little-endian bytes each; trailing bytes are allowed
/// and fewer than eight bytes are an error.
#[verifier::external_body]
fn bincode_decode_pair(b: &[u8]) -> (r: Option<(i32, u32)>)
    ensures
        b@.len() < 8 ==> r is None,
        b@.len() >= 8 ==> r == Some(
            (
                le_value(b@[0], b@[1], b@[2], b@[3]) as i32,
                le_value(b@[4], b@[5], b@[6], b@[7]),
            ),
        ),
{
    bincode::deserialize::<(i32, u32)>(b).ok()
}

/// Encodes a record into a self-describing buffer for the length-prefixed
/// call path; the same record always gives the same bytes.
pub fn serialize(r: &MyStruct) -> (b: Vec<u8>)
    ensures
        b@ == encoded(*r),
        b@.len() == RECORD_LEN,
{
    match bincode_encode_pair(r.i, r.f_bits) {
        Some(b) => b,
        None => Vec::new(),
    }
}

/// Decodes a buffer produced by `serialize`; the buffer's length is
/// authoritative.
pub fn deserialize(b: &[u8]) -> (r: Result<MyStruct, CallError>)
    ensures
        decoded(b@) matches Some(v) ==> r == Ok::<MyStruct, CallError>(v),
        decoded(b@) is None ==> r == Err::<MyStruct, CallError>(CallError::Encoding),
{
    match bincode_decode_pair(b) {
        Some((i, f_bits)) => Ok(MyStruct { i, f_bits }),
        None => Err(CallError::Encoding),
    }
}

proof fn lemma_le_round_trip(x: u32)
    ensures
        le_value(le_bytes(x)[0], le_bytes(x)[1], le_bytes(x)[2], le_bytes(x)[3]) == x,
{
    assert(((x & 0xff) as u8) as u32 | (((((x >> 8u32) & 0xff) as u8) as u32) << 8u32) | (((((x
        >> 16u32) & 0xff) as u8) as u32) << 16u32) | (((((x >> 24u32) & 0xff) as u8) as u32)
        << 24u32) == x) by (bit_vector);
}

/// Decoding the encoding of a record gives back that record.
pub proof fn lemma_serialize_round_trip(v: MyStruct)
    ensures
        decoded(encoded(v)) == Some(v),
{
    let b = encoded(v);
    lemma_le_round_trip(v.i as u32);
    lemma_le_round_trip(v.f_bits);
    assert(b[0] == le_bytes(v.i as u32)[0] && b[1] == le_bytes(v.i as u32)[1] && b[2]
        == le_bytes(v.i as u32)[2] && b[3] == le_bytes(v.i as u32)[3]);
    assert(b[4] == le_bytes(v.f_bits)[0] && b[5] == le_bytes(v.f_bits)[1] && b[6]
        == le_bytes(v.f_bits)[2] && b[7] == le_bytes(v.f_bits)[3]);
    let i = v.i;
    assert((i as u32) as i32 == i) by (bit_vector);
}

/// Encoding is deterministic: equal records encode to identical bytes.
pub proof fn lemma_serialize_deterministic(v: MyStruct, w: MyStruct)
    requires
        v == w,
    ensures
        encoded(v) == encoded(w),
{
}

} // verus!
