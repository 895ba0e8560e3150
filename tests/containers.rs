use allo_isolate::chrono::{Duration, Timestamp};
use allo_isolate::ffi::{discard, DartCObject, DartCObjectType, DartCObjectValue};
use allo_isolate::into_dart::{Float32Bits, Float64Bits};
use allo_isolate::uuid::Uuid;
use allo_isolate::{DartPostCObject, IntoDart, Isolate, PostCObjectHandle, ZeroCopyBuffer};
use std::cell::RefCell;
use std::collections::HashSet;

/// A stand-in for the Dart VM: it knows the ports it handed out, accepts
/// messages for them, reads them, and then releases them as the VM does.
struct DartVm {
    ports: RefCell<HashSet<i64>>,
}

impl DartVm {
    fn new() -> Self {
        DartVm { ports: RefCell::new(HashSet::new()) }
    }

    fn port(&self) -> i64 {
        let port = fastrand::i64(1..i64::MAX);
        self.ports.borrow_mut().insert(port);
        port
    }
}

fn exec(object: &DartCObject) {
    match &object.value {
        DartCObjectValue::Str(bytes) => assert!(!bytes.contains(&0)),
        DartCObjectValue::Array(a) => {
            for child in &a.values {
                exec(child);
            }
        },
        DartCObjectValue::TypedData(t) => {
            let _ = t.values.length();
        },
        DartCObjectValue::ExternalTypedData(e) => assert_eq!(e.length(), e.data().length()),
        _ => {},
    }
}

impl<'a> DartPostCObject for &'a DartVm {
    fn post_cobject(&self, port: i64, message: DartCObject) -> Result<(), DartCObject> {
        if self.ports.borrow().contains(&port) {
            exec(&message);
            let _ = discard(message);
            Ok(())
        } else {
            Err(message)
        }
    }
}

fn f32s(n: usize) -> Vec<Float32Bits> {
    vec![Float32Bits(42.0f32.to_bits()); n]
}

fn f64s(n: usize) -> Vec<Float64Bits> {
    vec![Float64Bits(42.0f64.to_bits()); n]
}

#[test]
fn can_run_valgrind_main() {
    let vm = DartVm::new();
    let mut handle: PostCObjectHandle<&DartVm> = PostCObjectHandle::new();
    let port = vm.port();
    assert_ne!(port, -1);
    let isolate = Isolate::new(port);
    assert!(!isolate.post(&handle, vec![String::from("Rust"); 8]));
    assert!(!isolate.post(&handle, vec![String::from("Dart"); 1024]));
    assert!(!isolate.post(&handle, vec![42i8; 100]));
    assert!(!isolate.post(&handle, vec![42u8; 100]));
    assert!(!isolate.post(&handle, vec![42i16; 100]));
    assert!(!isolate.post(&handle, vec![42u16; 100]));
    assert!(!isolate.post(&handle, vec![42i32; 100]));
    assert!(!isolate.post(&handle, vec![42u32; 100]));
    assert!(!isolate.post(&handle, vec![42i64; 100]));
    assert!(!isolate.post(&handle, vec![42u64; 100]));
    assert!(!isolate.post(&handle, f32s(100)));
    assert!(!isolate.post(&handle, f64s(100)));
    assert!(!isolate.post(&handle, vec![true; 100]));
    assert!(!isolate.post(&handle, vec![false; 100]));
    assert!(!isolate.post(&handle, ZeroCopyBuffer(vec![0u8; 0])));
    assert!(!isolate.post(&handle, ZeroCopyBuffer(vec![42i8; 100])));
    assert!(!isolate.post(&handle, ZeroCopyBuffer(vec![42u8; 100])));
    assert!(!isolate.post(&handle, ZeroCopyBuffer(vec![42i16; 100])));
    assert!(!isolate.post(&handle, ZeroCopyBuffer(vec![42u16; 100])));
    assert!(!isolate.post(&handle, ZeroCopyBuffer(vec![42i32; 100])));
    assert!(!isolate.post(&handle, ZeroCopyBuffer(vec![42u32; 100])));
    assert!(!isolate.post(&handle, ZeroCopyBuffer(vec![42i64; 100])));
    assert!(!isolate.post(&handle, ZeroCopyBuffer(vec![42u64; 100])));
    assert!(!isolate.post(&handle, ZeroCopyBuffer(f32s(100))));
    assert!(!isolate.post(&handle, ZeroCopyBuffer(f64s(100))));

    assert!(!isolate.post(&handle, [42i8; 100]));
    assert!(!isolate.post(&handle, [42u8; 100]));
    assert!(!isolate.post(&handle, [42i16; 100]));
    assert!(!isolate.post(&handle, [42u16; 100]));
    assert!(!isolate.post(&handle, [42i32; 100]));
    assert!(!isolate.post(&handle, [42u32; 100]));
    assert!(!isolate.post(&handle, [42i64; 100]));
    assert!(!isolate.post(&handle, [42u64; 100]));
    assert!(!isolate.post(&handle, [true; 100]));
    assert!(!isolate.post(&handle, [false; 100]));
    assert!(!isolate.post(&handle, ZeroCopyBuffer([0u8; 0])));
    assert!(!isolate.post(&handle, ZeroCopyBuffer([42i8; 100])));
    assert!(!isolate.post(&handle, ZeroCopyBuffer([42u8; 100])));
    assert!(!isolate.post(&handle, ZeroCopyBuffer([42i16; 100])));
    assert!(!isolate.post(&handle, ZeroCopyBuffer([42u16; 100])));
    assert!(!isolate.post(&handle, ZeroCopyBuffer([42i32; 100])));
    assert!(!isolate.post(&handle, ZeroCopyBuffer([42u32; 100])));
    assert!(!isolate.post(&handle, ZeroCopyBuffer([42i64; 100])));
    assert!(!isolate.post(&handle, ZeroCopyBuffer([42u64; 100])));

    // Store the primitive that lets messages reach the VM.
    assert!(handle.store_dart_post_cobject(&vm));

    let port = vm.port();
    assert_ne!(port, -1);
    let isolate = Isolate::new(port);
    assert!(isolate.post(&handle, 42i8));
    assert!(isolate.post(&handle, 42u8));
    assert!(isolate.post(&handle, 42i16));
    assert!(isolate.post(&handle, 42u16));
    assert!(isolate.post(&handle, 42i32));
    assert!(isolate.post(&handle, 42u32));
    assert!(isolate.post(&handle, 42i64));
    assert!(isolate.post(&handle, 42u64));
    assert!(isolate.post(&handle, 42isize));
    assert!(isolate.post(&handle, 42usize));
    assert!(isolate.post(&handle, 42i128));
    assert!(isolate.post(&handle, 42u128));
    assert!(isolate.post(&handle, 42usize));
    assert!(isolate.post(&handle, 42isize));
    assert!(isolate.post(&handle, true));
    assert!(isolate.post(&handle, false));

    let port = vm.port();
    assert_ne!(port, -1);
    let isolate = Isolate::new(port);

    assert!(isolate.post(&handle, String::new()));
    assert!(isolate.post(&handle, String::from("Hello Dart")));
    assert!(isolate.post(&handle, "Hello Dart"));

    let port = vm.port();
    assert_ne!(port, -1);
    let isolate2 = Isolate::new(port);

    assert!(isolate2.post(&handle, String::new()));
    assert!(isolate2.post(&handle, String::from("Hello Dart")));
    assert!(isolate2.post(&handle, "Hello Dart"));
    assert!(isolate.post(&handle, ZeroCopyBuffer(f64s(100))));

    assert!(isolate.post(&handle, String::new()));
    assert!(isolate.post(&handle, String::from("Hello Dart")));
    assert!(isolate.post(&handle, "Hello Dart"));
    assert!(isolate.post(&handle, ZeroCopyBuffer(f64s(100))));

    assert!(isolate2.post(&handle, String::new()));
    assert!(isolate2.post(&handle, String::from("Hello Dart")));
    assert!(isolate2.post(&handle, "Hello Dart"));
    assert!(isolate.post(&handle, ZeroCopyBuffer(f64s(100))));

    let port = vm.port();
    assert_ne!(port, -1);
    let isolate = Isolate::new(port);

    assert!(isolate.post(&handle, vec![String::from("Rust"); 8]));
    assert!(isolate.post(&handle, vec![String::from("Dart"); 1024]));
    assert!(isolate.post(
        &handle,
        vec![vec![String::from("Rust"); 8], vec![String::from("Dart"); 1024]]
    ));
    assert!(isolate.post(
        &handle,
        vec![
            vec![vec![String::from("Rust"); 8], vec![String::from("Dart"); 1024]],
            vec![vec![String::from("Rust"); 8], vec![String::from("Dart"); 1024]]
        ]
    ));
    assert!(isolate.post(&handle, vec![42i8; 100]));
    assert!(isolate.post(&handle, vec![42u8; 100]));
    assert!(isolate.post(&handle, vec![42i16; 100]));
    assert!(isolate.post(&handle, vec![42u16; 100]));
    assert!(isolate.post(&handle, vec![42i32; 100]));
    assert!(isolate.post(&handle, vec![42u32; 100]));
    assert!(isolate.post(&handle, vec![42i64; 100]));
    assert!(isolate.post(&handle, vec![42u64; 100]));
    assert!(isolate.post(&handle, f32s(100)));
    assert!(isolate.post(&handle, f64s(100)));
    assert!(isolate.post(&handle, vec![true; 100]));
    assert!(isolate.post(&handle, vec![false; 100]));
    assert!(isolate.post(&handle, ZeroCopyBuffer(vec![42i8; 100])));
    assert!(isolate.post(&handle, ZeroCopyBuffer(vec![42u8; 100])));
    assert!(isolate.post(&handle, ZeroCopyBuffer(vec![42i16; 100])));
    assert!(isolate.post(&handle, ZeroCopyBuffer(vec![42u16; 100])));
    assert!(isolate.post(&handle, ZeroCopyBuffer(vec![42i32; 100])));
    assert!(isolate.post(&handle, ZeroCopyBuffer(vec![42u32; 100])));
    assert!(isolate.post(&handle, ZeroCopyBuffer(vec![42i64; 100])));
    assert!(isolate.post(&handle, ZeroCopyBuffer(vec![42u64; 100])));
    assert!(isolate.post(&handle, ZeroCopyBuffer(f32s(100))));
    assert!(isolate.post(&handle, ZeroCopyBuffer(f64s(100))));

    assert!(isolate.post(&handle, [42i8; 100]));
    assert!(isolate.post(&handle, [42u8; 100]));
    assert!(isolate.post(&handle, [42i16; 100]));
    assert!(isolate.post(&handle, [42u16; 100]));
    assert!(isolate.post(&handle, [42i32; 100]));
    assert!(isolate.post(&handle, [42u32; 100]));
    assert!(isolate.post(&handle, [42i64; 100]));
    assert!(isolate.post(&handle, [42u64; 100]));
    assert!(isolate.post(&handle, [42i64; 100]));
    assert!(isolate.post(&handle, [true; 100]));
    assert!(isolate.post(&handle, [false; 100]));
    assert!(isolate.post(&handle, ZeroCopyBuffer([42i8; 100])));
    assert!(isolate.post(&handle, ZeroCopyBuffer([42u8; 100])));
    assert!(isolate.post(&handle, ZeroCopyBuffer([42i16; 100])));
    assert!(isolate.post(&handle, ZeroCopyBuffer([42u16; 100])));
    assert!(isolate.post(&handle, ZeroCopyBuffer([42i32; 100])));
    assert!(isolate.post(&handle, ZeroCopyBuffer([42u32; 100])));
    assert!(isolate.post(&handle, ZeroCopyBuffer([42i64; 100])));
    assert!(isolate.post(&handle, ZeroCopyBuffer([42u64; 100])));
    {
        // A u32 above i32::MAX keeps its bit pattern in the 32-bit slot.
        let u32_into_dart = 0xfe112233_u32.into_dart();
        assert_eq!(DartCObjectType::DartInt32, u32_into_dart.ty());
        assert!(matches!(u32_into_dart.value, DartCObjectValue::Int32(v) if v as u32 == 0xfe112233_u32));
    }

    assert!(isolate.post(&handle, Err::<(), String>(String::from("sample error"))));
    assert!(isolate.post(&handle, Timestamp { micros_since_epoch: 1_467_968_411_123_456 }));
    assert!(isolate.post(&handle, Duration { micros: Some(86_400_000_000) }));
    let id = Uuid::from_bytes([
        0x55, 0x0e, 0x84, 0x00, 0xe2, 0x9b, 0x41, 0xd4, 0xa7, 0x16, 0x44, 0x66, 0x55, 0x44, 0x00, 0x00,
    ]);
    assert!(isolate.post(&handle, id));
    assert!(isolate.post(&handle, vec![id, id]));

    assert!(isolate.post(&handle, ("asd", "asd".to_string(), 123)));
    assert!(isolate.post(&handle, ((true,), (123,))));
    assert!(isolate.post(&handle, (ZeroCopyBuffer(vec![-1]), vec![-1], Float64Bits(1.1f64.to_bits()))));
    assert!(isolate.post(&handle, (1, 2, 3, 4, 5, 6, 7, 8, 9, (10, 11))));

    assert!(isolate.post(&handle, vec![vec![10u8]]));

    let arr_2d: [[bool; 3]; 2] = [[true, false, true], [false, true, false]];
    assert!(isolate.post(&handle, arr_2d));

    // Dropping an empty zero-copy buffer's message must not panic.
    let a: ZeroCopyBuffer<Vec<u64>> = ZeroCopyBuffer(vec![]);
    let b = a.into_dart();
    drop(b);
}
