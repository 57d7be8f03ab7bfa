use rust_enclave::marshal::{deserialize, serialize, MyStruct, RECORD_LEN};
use rust_enclave::status::CallError;

#[test]
fn serialized_record_matches_bincode() {
    let s = MyStruct { i: 777, f_bits: std::f32::consts::E.to_bits() };
    let bytes = serialize(&s);
    assert_eq!(bytes, vec![0x09, 0x03, 0x00, 0x00, 0x54, 0xF8, 0x2D, 0x40]);
    let reference = bincode::serialize(&(777i32, std::f32::consts::E)).unwrap();
    assert_eq!(bytes, reference);
}

#[test]
fn serialized_negative_integer() {
    let s = MyStruct { i: -2, f_bits: 1 };
    assert_eq!(serialize(&s), vec![0xFE, 0xFF, 0xFF, 0xFF, 0x01, 0x00, 0x00, 0x00]);
}

#[test]
fn serialize_is_deterministic() {
    let s = MyStruct { i: 7, f_bits: std::f32::consts::PI.to_bits() };
    assert_eq!(serialize(&s), serialize(&s.clone()));
    assert_eq!(serialize(&s).len(), RECORD_LEN);
}

#[test]
fn deserialize_round_trip() {
    for s in [
        MyStruct { i: 777, f_bits: 2.71828f32.to_bits() },
        MyStruct { i: i32::MIN, f_bits: u32::MAX },
        MyStruct { i: 0, f_bits: 0 },
    ] {
        assert_eq!(deserialize(&serialize(&s)), Ok(s));
    }
}

#[test]
fn deserialize_reads_fields_in_order() {
    let bytes = [0x01, 0x00, 0x00, 0x80, 0xDB, 0x0F, 0x49, 0x40];
    let s = deserialize(&bytes).unwrap();
    assert_eq!(s.i, i32::MIN + 1);
    assert_eq!(f32::from_bits(s.f_bits), std::f32::consts::PI);
}

#[test]
fn deserialize_ignores_trailing_bytes() {
    let bytes = [0x07, 0, 0, 0, 0x02, 0, 0, 0, 0xAA];
    assert_eq!(deserialize(&bytes), Ok(MyStruct { i: 7, f_bits: 2 }));
}

#[test]
fn deserialize_short_buffer_is_encoding_error() {
    assert_eq!(deserialize(&[]), Err(CallError::Encoding));
    assert_eq!(deserialize(&[1, 2, 3, 4, 5, 6, 7]), Err(CallError::Encoding));
}
