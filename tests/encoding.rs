use allo_isolate::chrono::{Duration, Timestamp};
use allo_isolate::dart_array::DartArray;
use allo_isolate::ffi::{
    discard, run_destructors, DartCObject, DartCObjectType, DartCObjectValue, DartTypedDataType,
    TypedElements,
};
use allo_isolate::into_dart::{
    text_into_dart, vec_to_dart_native_external_typed_data, vec_to_dart_native_typed_data,
    Float32Bits, Float64Bits,
};
use allo_isolate::unwind::CatchUnwind;
use allo_isolate::uuid::Uuid;
use allo_isolate::{settle_post, DartPostCObject, IntoDart, Isolate, PostCObjectHandle, ZeroCopyBuffer};
use std::cell::Cell;

fn int32_of(o: &DartCObject) -> i32 {
    match o.value {
        DartCObjectValue::Int32(v) => v,
        _ => panic!("not an Int32 message"),
    }
}

fn int64_of(o: &DartCObject) -> i64 {
    match o.value {
        DartCObjectValue::Int64(v) => v,
        _ => panic!("not an Int64 message"),
    }
}

fn str_of(o: &DartCObject) -> Vec<u8> {
    match &o.value {
        DartCObjectValue::Str(b) => b.clone(),
        _ => panic!("not a String message"),
    }
}

fn children_of(o: &DartCObject) -> &Vec<Box<DartCObject>> {
    match &o.value {
        DartCObjectValue::Array(a) => &a.values,
        _ => panic!("not an Array message"),
    }
}

/// A receive primitive that rejects every message and counts the attempts.
struct Rejecting {
    calls: Cell<usize>,
}

impl DartPostCObject for Rejecting {
    fn post_cobject(&self, _port: i64, message: DartCObject) -> Result<(), DartCObject> {
        self.calls.set(self.calls.get() + 1);
        Err(message)
    }
}

/// A receive primitive that accepts every message.
struct Accepting;

impl DartPostCObject for Accepting {
    fn post_cobject(&self, _port: i64, message: DartCObject) -> Result<(), DartCObject> {
        let _ = discard(message);
        Ok(())
    }
}

#[test]
fn small_integers_use_the_32_bit_slot() {
    assert_eq!(int32_of(&(-5i8).into_dart()) as i8, -5i8);
    assert_eq!(int32_of(&(-300i16).into_dart()) as i16, -300i16);
    assert_eq!(int32_of(&200u8.into_dart()), 200);
    assert_eq!(int32_of(&65535u16.into_dart()), 65535);
    assert_eq!(int32_of(&i32::MIN.into_dart()), i32::MIN);
    let big = 0xfe112233_u32.into_dart();
    assert_eq!(big.ty(), DartCObjectType::DartInt32);
    assert_eq!(int32_of(&big), 0xfe112233_u32 as i32);
    assert_eq!(int32_of(&big) as u32, 0xfe112233_u32);
    assert_eq!(int32_of(&u32::MAX.into_dart()), -1);
}

#[test]
fn integers_of_64_bits_use_the_64_bit_slot() {
    assert_eq!(int64_of(&i64::MIN.into_dart()), i64::MIN);
    let top = u64::MAX.into_dart();
    assert_eq!(top.ty(), DartCObjectType::DartInt64);
    assert_eq!(int64_of(&top), -1);
    assert_eq!(int64_of(&top) as u64, u64::MAX);
    assert_eq!(int64_of(&42usize.into_dart()), 42);
    assert_eq!(int64_of(&(-42isize).into_dart()), -42);
}

#[test]
fn integers_of_128_bits_travel_as_decimal_strings() {
    assert_eq!(str_of(&42i128.into_dart()), b"42".to_vec());
    assert_eq!(str_of(&0u128.into_dart()), b"0".to_vec());
    assert_eq!(
        str_of(&i128::MIN.into_dart()),
        b"-170141183460469231731687303715884105728".to_vec()
    );
    assert_eq!(
        str_of(&u128::MAX.into_dart()),
        b"340282366920938463463374607431768211455".to_vec()
    );
    assert_eq!(i128::MIN.into_dart().ty(), DartCObjectType::DartString);
}

#[test]
fn text_with_a_nul_byte_falls_back_to_the_empty_string() {
    assert_eq!(str_of(&"Hello Dart".into_dart()), b"Hello Dart".to_vec());
    assert_eq!(str_of(&String::from("a\0b").into_dart()), Vec::<u8>::new());
    assert_eq!(str_of(&text_into_dart("\u{e9}t\u{e9}")), "\u{e9}t\u{e9}".as_bytes().to_vec());
    assert_eq!(str_of(&String::new().into_dart()), Vec::<u8>::new());
}

#[test]
fn options_results_and_unit() {
    assert!(matches!(None::<i32>.into_dart().value, DartCObjectValue::Null));
    assert_eq!(int32_of(&Some(5i32).into_dart()), 5);
    assert!(matches!(().into_dart().value, DartCObjectValue::Null));
    assert!(matches!(Ok::<bool, String>(true).into_dart().value, DartCObjectValue::Bool(true)));
    assert_eq!(str_of(&Err::<bool, String>(String::from("boom")).into_dart()), b"boom".to_vec());
}

#[test]
fn doubles_carry_their_bit_pattern() {
    let o = Float64Bits(1.5f64.to_bits()).into_dart();
    assert_eq!(o.ty(), DartCObjectType::DartDouble);
    assert!(matches!(o.value, DartCObjectValue::Double(b) if f64::from_bits(b) == 1.5));
}

#[test]
fn copy_strategy_keeps_length_type_and_elements() {
    let o = vec![1i16, -2, 3].into_dart();
    assert_eq!(o.ty(), DartCObjectType::DartTypedData);
    match &o.value {
        DartCObjectValue::TypedData(t) => {
            assert_eq!(t.values.ty(), DartTypedDataType::Int16);
            assert_eq!(t.values.length(), 3);
            assert!(matches!(&t.values, TypedElements::Int16(b) if b[..] == [1i16, -2, 3]));
        },
        _ => panic!("not typed data"),
    }
    let f = vec_to_dart_native_typed_data(vec![Float32Bits(2.5f32.to_bits())]);
    assert!(matches!(&f.value, DartCObjectValue::TypedData(t) if t.values.ty() == DartTypedDataType::Float32));
    let a = [7u64, 8].into_dart();
    assert!(matches!(&a.value, DartCObjectValue::TypedData(t) if matches!(&t.values, TypedElements::Uint64(b) if b[..] == [7u64, 8])));
}

#[test]
fn zero_copy_strategy_hands_over_an_exact_buffer() {
    let o = ZeroCopyBuffer(vec![1u32, 2, 3]).into_dart();
    assert_eq!(o.ty(), DartCObjectType::DartExternalTypedData);
    match o.value {
        DartCObjectValue::ExternalTypedData(e) => {
            assert_eq!(e.ty(), DartTypedDataType::Uint32);
            assert_eq!(e.length(), 3);
            assert!(matches!(e.data(), TypedElements::Uint32(b) if b[..] == [1u32, 2, 3]));
            assert_eq!(e.release(), 3);
        },
        _ => panic!("not external typed data"),
    }
    let again = vec_to_dart_native_external_typed_data(vec![9i8, 8]);
    let d = discard(again);
    assert_eq!(d.freed_blocks, 0);
    assert_eq!(d.released_buffers, 1);
}

#[test]
fn empty_zero_copy_buffer_is_safe_to_discard() {
    let o = ZeroCopyBuffer(Vec::<u8>::new()).into_dart();
    match &o.value {
        DartCObjectValue::ExternalTypedData(e) => assert_eq!(e.length(), 0),
        _ => panic!("not external typed data"),
    }
    let t = run_destructors(o);
    assert_eq!(t.freed_blocks, 0);
    assert_eq!(t.pending_release.len(), 1);
    let d = discard(ZeroCopyBuffer([0u8; 0]).into_dart());
    assert_eq!(d.released_buffers, 1);
}

#[test]
fn uuids_concatenate_into_one_byte_buffer() {
    let a: [u8; 16] = [
        0x55, 0x0e, 0x84, 0x00, 0xe2, 0x9b, 0x41, 0xd4, 0xa7, 0x16, 0x44, 0x66, 0x55, 0x44, 0x00, 0x00,
    ];
    let b: [u8; 16] = [
        0xa1, 0xa2, 0xa3, 0xa4, 0xb1, 0xb2, 0xc1, 0xc2, 0xd1, 0xd2, 0xd3, 0xd4, 0xd5, 0xd6, 0xd7, 0xd8,
    ];
    let o = vec![Uuid::from_bytes(a), Uuid::from_bytes(b)].into_dart();
    match &o.value {
        DartCObjectValue::TypedData(t) => match &t.values {
            TypedElements::Uint8(bytes) => {
                assert_eq!(bytes.len(), 32);
                let chunks: Vec<&[u8]> = bytes.chunks(16).collect();
                assert_eq!(chunks[0], &a[..]);
                assert_eq!(chunks[1], &b[..]);
            },
            _ => panic!("not a byte buffer"),
        },
        _ => panic!("not typed data"),
    }
    let one = Uuid::from_bytes(b).into_dart();
    assert!(matches!(&one.value, DartCObjectValue::TypedData(t) if matches!(&t.values, TypedElements::Uint8(x) if x[..] == b)));
    assert_eq!(Uuid::from_bytes(a).as_bytes(), a);
}

#[test]
fn nested_string_arrays_tear_down_completely() {
    let rows = vec![vec![String::from("a"), String::from("b")], vec![String::from("c")]];
    let o = rows.into_dart();
    assert_eq!(children_of(&o).len(), 2);
    assert_eq!(children_of(&children_of(&o)[0]).len(), 2);
    let t = run_destructors(o);
    // three strings, two inner pointer blocks, one outer pointer block
    assert_eq!(t.freed_blocks, 6);
    assert_eq!(t.pending_release.len(), 0);
}

#[test]
fn teardown_counts_typed_buffers_and_skips_zero_copy_ones() {
    let o = (vec![1u8, 2], ZeroCopyBuffer(vec![3u8]), "x", 5i32).into_dart();
    let d = discard(o);
    // outer pointer block, the copy buffer, the string
    assert_eq!(d.freed_blocks, 3);
    assert_eq!(d.released_buffers, 1);
}

#[test]
fn post_before_registration_always_fails() {
    let handle: PostCObjectHandle<Accepting> = PostCObjectHandle::new();
    assert!(!handle.is_registered());
    let isolate = Isolate::new(7);
    assert!(!isolate.post(&handle, 1i32));
    assert!(!isolate.post(&handle, vec![String::from("Rust"); 3]));
    assert!(!isolate.post(&handle, ZeroCopyBuffer(vec![1u8, 2, 3])));
}

#[test]
fn rejected_messages_are_discarded_and_reported() {
    let mut handle = PostCObjectHandle::new();
    assert!(handle.store_dart_post_cobject(Rejecting { calls: Cell::new(0) }));
    let isolate = Isolate::new(9);
    assert!(!isolate.post(&handle, vec![String::from("x"); 4]));
    assert!(!isolate.post(&handle, ZeroCopyBuffer(vec![1u16])));
    assert!(!settle_post(Err(1i32.into_dart())));
    assert!(settle_post(Ok(())));
}

#[test]
fn the_handle_is_written_once() {
    let mut handle = PostCObjectHandle::new();
    assert!(handle.store_dart_post_cobject(Accepting));
    assert!(!handle.store_dart_post_cobject(Accepting));
    assert!(handle.is_registered());
    let isolate = Isolate::new(11);
    assert_eq!(isolate.port(), 11);
    assert!(isolate.post(&handle, "accepted"));
}

#[test]
fn pair_encodes_as_an_array_of_its_elements() {
    let o = (true, 123).into_dart();
    assert_eq!(o.ty(), DartCObjectType::DartArray);
    let c = children_of(&o);
    assert_eq!(c.len(), 2);
    assert!(matches!(c[0].value, DartCObjectValue::Bool(true)));
    assert_eq!(int32_of(&c[1]), 123);
}

#[test]
fn timestamp_travels_as_microseconds() {
    let o = Timestamp { micros_since_epoch: 1_467_968_411_123_456 }.into_dart();
    assert_eq!(o.ty(), DartCObjectType::DartInt64);
    assert_eq!(int64_of(&o), 1_467_968_411_123_456);
    let many = vec![Timestamp { micros_since_epoch: -1 }, Timestamp { micros_since_epoch: 2 }].into_dart();
    assert!(matches!(&many.value, DartCObjectValue::TypedData(t) if matches!(&t.values, TypedElements::Int64(b) if b[..] == [-1i64, 2])));
    assert_eq!(int64_of(&Duration { micros: Some(86_400_000_000) }.into_dart()), 86_400_000_000);
    assert!(matches!(Duration { micros: None }.into_dart().value, DartCObjectValue::Null));
}

#[test]
fn arrays_keep_order() {
    let arr = DartArray::from_vec(vec![3i32, 1, 2]);
    assert_eq!(arr.len(), 3);
    let o = arr.into_dart();
    let c = children_of(&o);
    assert_eq!(int32_of(&c[0]), 3);
    assert_eq!(int32_of(&c[1]), 1);
    assert_eq!(int32_of(&c[2]), 2);
    let empty = DartArray::from_vec(Vec::<i32>::new());
    assert_eq!(empty.len(), 0);
    let grid = [[true, false], [false, false]].into_dart();
    assert_eq!(children_of(&children_of(&grid)[0]).len(), 2);
}

#[test]
fn tags_have_the_abi_discriminants() {
    assert_eq!(DartCObjectType::DartNull.discriminant(), 0);
    assert_eq!(DartCObjectType::DartString.discriminant(), 5);
    assert_eq!(DartCObjectType::DartExternalTypedData.discriminant(), 8);
    assert_eq!(DartCObjectType::DartNumberOfTypes.discriminant(), 13);
}

#[test]
fn catch_unwind_wraps_and_unwraps() {
    let c = CatchUnwind::new(5u8);
    assert_eq!(c.into_inner(), 5u8);
}

#[test]
fn element_types_have_the_abi_discriminants() {
    assert_eq!(DartTypedDataType::ByteData.discriminant(), 0);
    assert_eq!(DartTypedDataType::Uint8.discriminant(), 2);
    assert_eq!(DartTypedDataType::Float64.discriminant(), 11);
    assert_eq!(DartTypedDataType::Invalid.discriminant(), 13);
}
