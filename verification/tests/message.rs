use wasmtime_jni::error::{push_decimal, AllocationFailure, BridgeError, SignatureMismatch};
use wasmtime_jni::val::{SlotType, SlotValue};

fn decimal(n: u64) -> String {
    let mut text = String::from("n = ");
    push_decimal(&mut text, n);
    text
}

#[test]
fn numbers_are_written_in_decimal() {
    assert_eq!(decimal(0), "n = 0");
    assert_eq!(decimal(7), "n = 7");
    assert_eq!(decimal(10), "n = 10");
    assert_eq!(decimal(65536), "n = 65536");
    assert_eq!(decimal(1_000_000_007), "n = 1000000007");
    assert_eq!(decimal(u64::MAX), "n = 18446744073709551615");
}

#[test]
fn slot_types_have_names() {
    let names: Vec<&str> = [SlotType::I32, SlotType::I64, SlotType::F32, SlotType::F64, SlotType::V128, SlotType::Ref]
        .iter()
        .map(SlotType::name)
        .collect();
    assert_eq!(names, ["i32", "i64", "f32", "f64", "v128", "ref"]);
}

#[test]
fn mismatch_names_index_and_both_types() {
    let mismatch = SignatureMismatch { index: 12, expected: SlotType::I32, actual: Some(SlotType::F64) };
    assert_eq!(mismatch.message(), "Expected i32 for slot 12, got f64");
    assert_eq!(BridgeError::SignatureMismatch(mismatch).message(), "Expected i32 for slot 12, got f64");
    let mismatch = SignatureMismatch { index: 0, expected: SlotType::I64, actual: None };
    assert_eq!(mismatch.message(), "Expected i64 for slot 0, got nothing");
}

#[test]
fn allocation_failures_say_what_was_asked() {
    assert_eq!(AllocationFailure::OutOfMemory { size: 65000 }.message(), "guest could not allocate 65000 bytes");
    assert_eq!(AllocationFailure::NotAnOffset.message(), "i32 was not returned from the alloc");
    assert_eq!(
        AllocationFailure::TooLarge { bytes: 4294967296 }.message(),
        "4294967296 bytes are more than a guest can address"
    );
    let outside = AllocationFailure::OutOfBounds { offset: 65535, length: 2, memory: 65536 };
    assert_eq!(outside.message(), "memory is 65536 need 2 at 65535");
    assert_eq!(BridgeError::AllocationFailure(outside).message(), "memory is 65536 need 2 at 65535");
}

#[test]
fn every_failure_has_its_message() {
    let named = |name: &str| name.to_string();
    let messages = [
        (
            BridgeError::UnsupportedType { name: named("java.util.List"), for_return: false },
            "Unsupported Java class as argument: java.util.List",
        ),
        (
            BridgeError::UnsupportedType { name: named("java.util.List"), for_return: true },
            "Unsupported Java class as result: java.util.List",
        ),
        (BridgeError::UnsupportedObject { name: named("a.B") }, "Unsupported Java object: a.B"),
        (BridgeError::UnsupportedValue { name: named("boolean") }, "Unsupported return type: boolean"),
        (BridgeError::DirectBufferReturn, "ByteBuffer unsupported as Java return type"),
        (BridgeError::UnsupportedReturn { ty: SlotType::V128 }, "v128 unsupported as Java return type"),
        (
            BridgeError::UnsupportedParameter { position: 3, ty: SlotType::Ref },
            "ref unsupported as Java parameter type at position 3",
        ),
        (BridgeError::NullParameter, "Null parameters not allowed"),
        (BridgeError::MissingAllocator, "no memory or allocator supplied from module"),
        (BridgeError::MissingArgument { expected: SlotType::F32 }, "next argument missing, expected: f32"),
        (
            BridgeError::IncorrectArgument { expected: SlotType::I32, found: SlotValue::I64(9) },
            "incorrect value for argument, expected: i32, got: i64",
        ),
        (BridgeError::MissingReturn, "Return Val not present"),
        (
            BridgeError::ReturnMismatch { declared: Some(SlotType::I32), actual: Some(SlotType::I64) },
            "Expected i32 but was i64",
        ),
        (BridgeError::ReturnMismatch { declared: Some(SlotType::F64), actual: None }, "Expected f64 but was nothing"),
        (BridgeError::ReturnMismatch { declared: None, actual: Some(SlotType::I32) }, "Expected nothing but was i32"),
        (
            BridgeError::AllocationFailure(AllocationFailure::CannotFree),
            "the dealloc does not take an offset and a length",
        ),
        (BridgeError::MissingReturnPointer, "expected return by ref argument pointer"),
        (
            BridgeError::UnexpectedReturn,
            "Unexpected WASM return value, should have been return by reference",
        ),
        (
            BridgeError::MultipleReturns { count: 2 },
            "multiple return values not supported, expected 0 or 1 found: 2",
        ),
        (BridgeError::ManagedException(named("java.lang.Error\n")), "java.lang.Error\n"),
        (BridgeError::GuestTrap(named("wasm trap: unreachable")), "wasm trap: unreachable"),
    ];
    for (error, message) in messages {
        assert_eq!(error.message(), message);
    }
}
