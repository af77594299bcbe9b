use wasmtime::{AsContextMut, Config, Engine, Instance, Linker, Module, Store};
use wasmtime_jni::error::{AllocationFailure, BridgeError, SignatureMismatch};
use wasmtime_jni::exports::WasmSlice;
use wasmtime_jni::java::{JavaClass, JavaObject};
use wasmtime_jni::guest::{engine_types, from_engine, is_async, place_result, to_engine};
use wasmtime_jni::ty::wasm_alloc::{all_i32, alloc_request, dealloc_request};
use wasmtime_jni::ty::{ByteSlice, ReturnAbi, WasmAlloc, WasmSliceWrapper};
use wasmtime_jni::val::{SlotType, SlotValue};
use wasmtime_jni::wasm_function::{call, store_result, CallSignature};
use wasmtime_jni::wasm_instance::get_function;
use wasmtime_jni::wasm_state::JavaState;
use wasmtime_wasi::WasiCtxBuilder;
use wasmtime_jni::wasm_value::{
    return_or_load_or_from_arg, IntoByteArray, IntoByteBuffer, IntoString, WasmTy, WasmVal,
};

/// A guest with a bump allocator that logs every range handed back to it.
///
/// Layout of its memory: the number of frees at offset 8, the freed ranges as (offset,
/// length) pairs from offset 16 on, and allocations from offset 4096 on.
const GUEST: &str = r#"
(module
  (memory (export "memory") 1)
  (global $next (mut i32) (i32.const 4096))
  (data (i32.const 2048) "Hello, Java!")

  (func $alloc (export "__alloc_bytes") (param $size i32) (result i32)
    (local $ptr i32)
    (local.set $ptr (global.get $next))
    (if (i32.gt_u (local.get $size) (i32.sub (i32.const 65536) (local.get $ptr)))
      (then (return (i32.const 0))))
    (global.set $next (i32.add (local.get $ptr) (local.get $size)))
    (local.get $ptr))

  (func (export "__dealloc_bytes") (param $ptr i32) (param $size i32)
    (local $count i32)
    (local.set $count (i32.load (i32.const 8)))
    (i32.store (i32.add (i32.const 16) (i32.mul (local.get $count) (i32.const 8))) (local.get $ptr))
    (i32.store (i32.add (i32.const 20) (i32.mul (local.get $count) (i32.const 8))) (local.get $size))
    (i32.store (i32.const 8) (i32.add (local.get $count) (i32.const 1))))

  (func (export "add_i32") (param i32 i32) (result i32)
    (i32.add (local.get 0) (local.get 1)))
  (func (export "add_i64") (param i64 i64) (result i64)
    (i64.add (local.get 0) (local.get 1)))
  (func (export "add_f32") (param f32 f32) (result f32)
    (f32.add (local.get 0) (local.get 1)))
  (func (export "add_f64") (param f64 f64) (result f64)
    (f64.add (local.get 0) (local.get 1)))
  (func (export "identity_i32") (param i32) (result i32) (local.get 0))
  (func (export "identity_i64") (param i64) (result i64) (local.get 0))
  (func (export "identity_f32") (param f32) (result f32) (local.get 0))
  (func (export "identity_f64") (param f64) (result f64) (local.get 0))
  (func (export "nothing"))
  (func (export "pair") (result i32 i32) (i32.const 1) (i32.const 2))
  (func (export "trap") (unreachable))

  (func (export "length") (param $ptr i32) (param $len i32) (result i32)
    (local.get $len))
  (func (export "two_ranges") (param i32 i32 i32 i32))

  (func (export "echo") (param $ptr i32) (param $len i32) (param $ret i32)
    (local $out i32)
    (local.set $out (call $alloc (local.get $len)))
    (memory.copy (local.get $out) (local.get $ptr) (local.get $len))
    (i32.store (local.get $ret) (local.get $out))
    (i32.store offset=4 (local.get $ret) (local.get $len)))

  (func (export "hello") (param $ret i32)
    (local $out i32)
    (local.set $out (call $alloc (i32.const 12)))
    (memory.copy (local.get $out) (i32.const 2048) (i32.const 12))
    (i32.store (local.get $ret) (local.get $out))
    (i32.store offset=4 (local.get $ret) (i32.const 12)))

  (func (export "reverse_bytes") (param $ptr i32) (param $len i32) (param $ret i32)
    (local $out i32)
    (local $i i32)
    (local.set $out (call $alloc (local.get $len)))
    (block $done
      (loop $next
        (br_if $done (i32.ge_u (local.get $i) (local.get $len)))
        (i32.store8
          (i32.add (local.get $out) (local.get $i))
          (i32.load8_u
            (i32.sub
              (i32.add (local.get $ptr) (local.get $len))
              (i32.add (local.get $i) (i32.const 1)))))
        (local.set $i (i32.add (local.get $i) (i32.const 1)))
        (br $next)))
    (i32.store (local.get $ret) (local.get $out))
    (i32.store offset=4 (local.get $ret) (local.get $len)))
)
"#;

struct Guest {
    store: Store<JavaState>,
    instance: Instance,
}

/// An engine that reserves no more address space than a memory needs.
fn engine() -> Engine {
    let mut config = Config::new();
    config.memory_reservation(0);
    config.memory_reservation_for_growth(0);
    config.memory_guard_size(0);
    Engine::new(&config).expect("the configuration is valid")
}

fn guest(text: &str) -> Guest {
    let engine = engine();
    let module = Module::new(&engine, text).expect("the guest module is valid");
    let mut store = Store::new(&engine, JavaState::new(WasiCtxBuilder::new().build_p1()));
    let instance = Instance::new(&mut store, &module, &[]).expect("the guest has no imports");
    Guest { store, instance }
}

/// The ranges that were handed back to the guest's deallocation routine, in order.
fn freed(guest: &mut Guest) -> Vec<(u32, u32)> {
    let memory = guest.instance.get_memory(&mut guest.store, "memory").expect("the guest exports its memory");
    let data = memory.data(&guest.store);
    let word = |at: usize| u32::from_le_bytes([data[at], data[at + 1], data[at + 2], data[at + 3]]);
    (0..word(8) as usize).map(|i| (word(16 + 8 * i), word(20 + 8 * i))).collect()
}

fn invoke(guest: &mut Guest, name: &str, args: &[JavaObject], return_type: &JavaClass) -> Result<Option<JavaObject>, BridgeError> {
    let mut store = guest.store.as_context_mut();
    let alloc = WasmAlloc::from_instance(&guest.instance, &mut store);
    let func = get_function(&guest.instance, &mut store, name).expect("the guest exports the function");
    call(&func, alloc.as_ref(), &mut store, args, return_type, &mut Vec::new())
}

#[test]
fn outbound_adds_in_the_guest() {
    let mut guest = guest(GUEST);
    let sum = invoke(&mut guest, "add_i32", &[JavaObject::Integer(1), JavaObject::Integer(2)], &JavaClass::Integer);
    assert_eq!(sum, Ok(Some(JavaObject::Integer(3))));
}

#[test]
fn outbound_call_without_arguments_or_result() {
    let mut guest = guest(GUEST);
    assert_eq!(invoke(&mut guest, "nothing", &[], &JavaClass::Void), Ok(None));
    assert_eq!(invoke(&mut guest, "nothing", &[], &JavaClass::VoidPrimitive), Ok(None));
    assert_eq!(invoke(&mut guest, "nothing", &[], &JavaClass::Null), Ok(None));
    assert_eq!(freed(&mut guest), vec![]);
}

#[test]
fn scalars_round_trip_through_the_guest() {
    let mut guest = guest(GUEST);
    for v in [0, 1, -1, i32::MIN, i32::MAX] {
        let back = invoke(&mut guest, "identity_i32", &[JavaObject::Integer(v)], &JavaClass::IntPrimitive);
        assert_eq!(back, Ok(Some(JavaObject::Integer(v))));
    }
    for v in [0, 1, -1, i64::MIN, i64::MAX] {
        let back = invoke(&mut guest, "identity_i64", &[JavaObject::Long(v)], &JavaClass::Long);
        assert_eq!(back, Ok(Some(JavaObject::Long(v))));
    }
    for v in [0.0f32, -0.0, 1.5, -1.0, f32::MIN, f32::MAX, f32::INFINITY] {
        let back = invoke(&mut guest, "identity_f32", &[JavaObject::Float(v.to_bits())], &JavaClass::Float);
        assert_eq!(back, Ok(Some(JavaObject::Float(v.to_bits()))));
    }
    for v in [0.0f64, -0.0, 1.5, -1.0, f64::MIN, f64::MAX, f64::NEG_INFINITY] {
        let back = invoke(&mut guest, "identity_f64", &[JavaObject::Double(v.to_bits())], &JavaClass::DoublePrimitive);
        assert_eq!(back, Ok(Some(JavaObject::Double(v.to_bits()))));
    }
    assert_eq!(freed(&mut guest), vec![]);
}

#[test]
fn outbound_adds_every_scalar_kind() {
    let mut guest = guest(GUEST);
    let sum = invoke(&mut guest, "add_i64", &[JavaObject::Long(1), JavaObject::Long(2)], &JavaClass::Long);
    assert_eq!(sum, Ok(Some(JavaObject::Long(3))));
    let sum = invoke(
        &mut guest,
        "add_f32",
        &[JavaObject::Float(1.5f32.to_bits()), JavaObject::Float(2.25f32.to_bits())],
        &JavaClass::Float,
    );
    assert_eq!(sum, Ok(Some(JavaObject::Float(3.75f32.to_bits()))));
    let sum = invoke(
        &mut guest,
        "add_f64",
        &[JavaObject::Double(1.5f64.to_bits()), JavaObject::Double(2.25f64.to_bits())],
        &JavaClass::Double,
    );
    assert_eq!(sum, Ok(Some(JavaObject::Double(3.75f64.to_bits()))));
}

#[test]
fn byte_arrays_round_trip_through_the_guest() {
    let payloads: [&[u8]; 4] = [&[], &[7], &[0, 1, 2, 255], "h\u{e9}llo, w\u{f6}rld \u{2713}".as_bytes()];
    for payload in payloads {
        let mut guest = guest(GUEST);
        let back = invoke(&mut guest, "echo", &[JavaObject::ByteArray(payload.to_vec())], &JavaClass::ByteArray);
        assert_eq!(back, Ok(Some(JavaObject::ByteArray(payload.to_vec()))));
        // the copy the guest returned, the record, and the argument, in the order they are freed
        let len = payload.len() as u32;
        assert_eq!(freed(&mut guest), vec![(4096 + len + 8, len), (4096 + len, 8), (4096, len)]);
    }
}

#[test]
fn text_round_trips_through_the_guest() {
    for text in ["", "a", "h\u{e9}llo, w\u{f6}rld \u{2713}"] {
        let mut guest = guest(GUEST);
        let back = invoke(&mut guest, "echo", &[JavaObject::String(text.to_string())], &JavaClass::String);
        assert_eq!(back, Ok(Some(JavaObject::String(text.to_string()))));
        assert_eq!(freed(&mut guest).len(), 3);
    }
}

#[test]
fn bytes_that_are_no_text_are_replaced() {
    let mut guest = guest(GUEST);
    let back = invoke(&mut guest, "echo", &[JavaObject::ByteArray(vec![b'a', 0xff, b'b'])], &JavaClass::String);
    assert_eq!(back, Ok(Some(JavaObject::String("a\u{fffd}b".to_string()))));
}

#[test]
fn guest_returns_text_by_reference() {
    let mut guest = guest(GUEST);
    let back = invoke(&mut guest, "hello", &[], &JavaClass::String);
    assert_eq!(back, Ok(Some(JavaObject::String("Hello, Java!".to_string()))));
    // the record was allocated first, the text by the guest after it
    assert_eq!(freed(&mut guest), vec![(4096 + 8, 12), (4096, 8)]);
}

#[test]
fn guest_reverses_bytes() {
    let mut guest = guest(GUEST);
    let back = invoke(&mut guest, "reverse_bytes", &[JavaObject::ByteArray(vec![0, 1, 2])], &JavaClass::ByteArray);
    assert_eq!(back, Ok(Some(JavaObject::ByteArray(vec![2, 1, 0]))));
    // the host frees the output after reading it, and on its own the input it allocated
    let freed = freed(&mut guest);
    assert!(freed.contains(&(4096, 3)));
    assert!(freed.contains(&(4096 + 3 + 8, 3)));
    assert!(freed.contains(&(4096 + 3, 8)));
    assert_eq!(freed.len(), 3);
}

#[test]
fn bytes_pass_as_offset_and_length() {
    let mut guest = guest(GUEST);
    let len = invoke(&mut guest, "length", &[JavaObject::ByteArray(vec![9; 40])], &JavaClass::Integer);
    assert_eq!(len, Ok(Some(JavaObject::Integer(40))));
    assert_eq!(freed(&mut guest), vec![(4096, 40)]);
}

#[test]
fn mismatch_names_the_first_slot_and_nothing_is_called() {
    let mut guest = guest(GUEST);
    let refused = invoke(&mut guest, "add_i32", &[JavaObject::Integer(1), JavaObject::Long(2)], &JavaClass::Integer);
    assert_eq!(
        refused,
        Err(BridgeError::SignatureMismatch(SignatureMismatch {
            index: 1,
            expected: SlotType::I64,
            actual: Some(SlotType::I32),
        }))
    );
    // bytes where the guest takes one integer: the first slot agrees, the second is missing
    let refused = invoke(&mut guest, "identity_i32", &[JavaObject::ByteArray(vec![1, 2, 3])], &JavaClass::Integer);
    assert_eq!(
        refused,
        Err(BridgeError::SignatureMismatch(SignatureMismatch {
            index: 1,
            expected: SlotType::I32,
            actual: None,
        }))
    );
    let refused = invoke(&mut guest, "add_i32", &[JavaObject::Integer(1), JavaObject::Integer(2)], &JavaClass::Long);
    assert_eq!(
        refused,
        Err(BridgeError::ReturnMismatch { declared: Some(SlotType::I64), actual: Some(SlotType::I32) })
    );
    let refused = invoke(&mut guest, "nothing", &[], &JavaClass::Integer);
    assert_eq!(refused, Err(BridgeError::ReturnMismatch { declared: Some(SlotType::I32), actual: None }));
    // a return by reference needs the trailing parameter
    let refused = invoke(&mut guest, "nothing", &[], &JavaClass::String);
    assert_eq!(
        refused,
        Err(BridgeError::SignatureMismatch(SignatureMismatch {
            index: 0,
            expected: SlotType::I32,
            actual: None,
        }))
    );
    // nothing was allocated on the way: the next allocation is the guest's first
    assert_eq!(freed(&mut guest), vec![]);
    let len = invoke(&mut guest, "length", &[JavaObject::ByteArray(vec![1])], &JavaClass::Integer);
    assert_eq!(len, Ok(Some(JavaObject::Integer(1))));
    assert_eq!(freed(&mut guest), vec![(4096, 1)]);
}

#[test]
fn trap_fails_one_call_and_the_store_stays_usable() {
    let mut guest = guest(GUEST);
    let trapped = invoke(&mut guest, "trap", &[], &JavaClass::Void);
    assert!(matches!(trapped, Err(BridgeError::GuestTrap(_))));
    let sum = invoke(&mut guest, "add_i32", &[JavaObject::Integer(20), JavaObject::Integer(22)], &JavaClass::Integer);
    assert_eq!(sum, Ok(Some(JavaObject::Integer(42))));
}

#[test]
fn more_than_one_result_is_refused() {
    let mut guest = guest(GUEST);
    let refused = invoke(&mut guest, "pair", &[], &JavaClass::Integer);
    assert_eq!(refused, Err(BridgeError::MultipleReturns { count: 2 }));
}

#[test]
fn objects_and_classes_without_a_kind_are_refused() {
    let mut guest = guest(GUEST);
    let thread = JavaObject::Other { name: "java.lang.Thread".to_string() };
    let refused = invoke(&mut guest, "identity_i32", &[JavaObject::Integer(1), thread], &JavaClass::Integer);
    assert_eq!(refused, Err(BridgeError::UnsupportedObject { name: "java.lang.Thread".to_string() }));
    let buffer = JavaObject::ByteBuffer(WasmSlice::new(0, 4));
    let refused = invoke(&mut guest, "length", &[buffer], &JavaClass::Integer);
    assert_eq!(refused, Err(BridgeError::UnsupportedObject { name: "java.nio.ByteBuffer".to_string() }));
    let refused = invoke(
        &mut guest,
        "hello",
        &[],
        &JavaClass::ByteBuffer { name: "java.nio.DirectByteBuffer".to_string() },
    );
    assert_eq!(
        refused,
        Err(BridgeError::UnsupportedType { name: "java.nio.DirectByteBuffer".to_string(), for_return: true })
    );
    let refused = invoke(&mut guest, "hello", &[], &JavaClass::Other { name: "java.util.List".to_string() });
    assert_eq!(
        refused,
        Err(BridgeError::UnsupportedType { name: "java.util.List".to_string(), for_return: true })
    );
}

#[test]
fn guest_without_allocator_takes_scalars_only() {
    let mut guest = guest(
        r#"(module
            (func (export "length") (param i32 i32) (result i32) (local.get 1))
            (func (export "text") (param i32))
            (func (export "twice") (param i32) (result i32) (i32.mul (local.get 0) (i32.const 2))))"#,
    );
    let mut store = guest.store.as_context_mut();
    assert!(WasmAlloc::from_instance(&guest.instance, &mut store).is_none());
    let twice = invoke(&mut guest, "twice", &[JavaObject::Integer(21)], &JavaClass::Integer);
    assert_eq!(twice, Ok(Some(JavaObject::Integer(42))));
    let refused = invoke(&mut guest, "length", &[JavaObject::ByteArray(vec![1, 2])], &JavaClass::Integer);
    assert_eq!(refused, Err(BridgeError::MissingAllocator));
    let refused = invoke(&mut guest, "text", &[], &JavaClass::String);
    assert_eq!(refused, Err(BridgeError::MissingAllocator));
}

#[test]
fn guest_with_part_of_the_exports_has_no_allocator() {
    let mut guest = guest(
        r#"(module
            (memory (export "memory") 1)
            (func (export "__alloc_bytes") (param i32) (result i32) (i32.const 16)))"#,
    );
    let mut store = guest.store.as_context_mut();
    assert!(WasmAlloc::from_instance(&guest.instance, &mut store).is_none());
}

#[test]
fn allocation_failures_are_reported() {
    let mut guest = guest(GUEST);
    // more than the memory holds: refused before the guest is asked
    let refused = invoke(&mut guest, "length", &[JavaObject::ByteArray(vec![0; 70000])], &JavaClass::Integer);
    assert_eq!(
        refused,
        Err(BridgeError::AllocationFailure(AllocationFailure::OutOfBounds {
            offset: 0,
            length: 70000,
            memory: 65536,
        }))
    );
    // more than the guest has left: it answers 0
    let refused = invoke(&mut guest, "length", &[JavaObject::ByteArray(vec![0; 65000])], &JavaClass::Integer);
    assert_eq!(refused, Err(BridgeError::AllocationFailure(AllocationFailure::OutOfMemory { size: 65000 })));
    // the failure ends that call only
    let len = invoke(&mut guest, "length", &[JavaObject::ByteArray(vec![0; 10])], &JavaClass::Integer);
    assert_eq!(len, Ok(Some(JavaObject::Integer(10))));
}

#[test]
fn arguments_stored_before_a_failure_are_freed() {
    let mut guest = guest(GUEST);
    let args = [JavaObject::ByteArray(vec![1; 16]), JavaObject::ByteArray(vec![0; 65000])];
    // the kinds do not fit: nothing is stored
    let refused = invoke(&mut guest, "add_i64", &args, &JavaClass::Long);
    assert!(matches!(refused, Err(BridgeError::SignatureMismatch(_))));
    assert_eq!(freed(&mut guest), vec![]);
    // the kinds fit and the second argument does not: the first is freed again
    let refused = invoke(&mut guest, "two_ranges", &args, &JavaClass::Void);
    assert_eq!(refused, Err(BridgeError::AllocationFailure(AllocationFailure::OutOfMemory { size: 65000 })));
    assert_eq!(freed(&mut guest), vec![(4096, 16)]);
}

#[test]
fn guest_that_cannot_free_does_not_fail_the_call() {
    let mut guest = guest(
        r#"(module
            (memory (export "memory") 1)
            (global $next (mut i32) (i32.const 4096))
            (func $alloc (export "__alloc_bytes") (param $size i32) (result i32)
              (local $ptr i32)
              (local.set $ptr (global.get $next))
              (global.set $next (i32.add (local.get $ptr) (local.get $size)))
              (local.get $ptr))
            (func (export "__dealloc_bytes") (param i32 i32) (unreachable))
            (func (export "echo") (param $ptr i32) (param $len i32) (param $ret i32)
              (local $out i32)
              (local.set $out (call $alloc (local.get $len)))
              (memory.copy (local.get $out) (local.get $ptr) (local.get $len))
              (i32.store (local.get $ret) (local.get $out))
              (i32.store offset=4 (local.get $ret) (local.get $len))))"#,
    );
    let back = invoke(&mut guest, "echo", &[JavaObject::String("kept".to_string())], &JavaClass::String);
    assert_eq!(back, Ok(Some(JavaObject::String("kept".to_string()))));
    let mut store = guest.store.as_context_mut();
    let alloc = WasmAlloc::from_instance(&guest.instance, &mut store).expect("the guest has an allocator");
    let range = alloc.alloc_bytes(b"x", &mut store).expect("the guest has room");
    assert!(matches!(range.free(&mut store), Err(BridgeError::GuestTrap(_))));
    assert!(matches!(alloc.dealloc(4096, &mut store), Err(BridgeError::GuestTrap(_))));
    // the store is as usable as before
    assert_eq!(alloc.read(WasmSlice::new(4096, 4), &store), Ok(b"kept".to_vec()));
}

#[test]
fn allocation_routine_of_another_type_fails_the_allocation() {
    let mut wide = guest(
        r#"(module
            (memory (export "memory") 1)
            (func (export "__alloc_bytes") (param i32) (result i64) (i64.const 4096))
            (func (export "__dealloc_bytes") (param i32 i32)))"#,
    );
    let mut store = wide.store.as_context_mut();
    let alloc = WasmAlloc::from_instance(&wide.instance, &mut store).expect("the guest has an allocator");
    assert_eq!(
        alloc.alloc_bytes(b"abc", &mut store).err(),
        Some(BridgeError::AllocationFailure(AllocationFailure::NotAnOffset))
    );
    let mut silent = guest(
        r#"(module
            (memory (export "memory") 1)
            (func (export "__alloc_bytes") (param i32))
            (func (export "__dealloc_bytes") (param i32 i32)))"#,
    );
    let mut store = silent.store.as_context_mut();
    let alloc = WasmAlloc::from_instance(&silent.instance, &mut store).expect("the guest has an allocator");
    let not_an_offset = Some(BridgeError::AllocationFailure(AllocationFailure::NotAnOffset));
    assert_eq!(alloc.alloc_size(3, &mut store).err(), not_an_offset);
    assert_eq!(alloc.alloc_record(&mut store).err(), not_an_offset);
    assert_eq!(alloc.alloc_bytes(b"abc", &mut store).err(), not_an_offset);
    // and a call that has to go through guest memory fails with it, before the guest runs
    let args = [JavaObject::ByteArray(vec![1, 2, 3])];
    let refused = invoke(&mut silent, "__dealloc_bytes", &args, &JavaClass::Void);
    assert_eq!(refused, Err(BridgeError::AllocationFailure(AllocationFailure::NotAnOffset)));
}

#[test]
fn requests_to_the_allocator_carry_size_offset_and_length() {
    assert_eq!(alloc_request(0), vec![SlotValue::I32(0)]);
    assert_eq!(alloc_request(12), vec![SlotValue::I32(12)]);
    assert_eq!(alloc_request(u32::MAX), vec![SlotValue::I32(-1)]);
    assert_eq!(alloc_request(1 << 31), vec![SlotValue::I32(i32::MIN)]);
    assert_eq!(dealloc_request(WasmSlice::new(4096, 5)), vec![SlotValue::I32(4096), SlotValue::I32(5)]);
    assert_eq!(dealloc_request(WasmSlice::new(-8, 0)), vec![SlotValue::I32(-8), SlotValue::I32(0)]);
    assert!(all_i32(&[], 0));
    assert!(all_i32(&[SlotType::I32, SlotType::I32], 2));
    assert!(!all_i32(&[SlotType::I32, SlotType::I32], 1));
    assert!(!all_i32(&[SlotType::I32, SlotType::I64], 2));
    assert!(!all_i32(&[SlotType::Ref], 1));
}

#[test]
fn store_tells_whether_it_runs_asynchronous_calls() {
    let mut plain = guest(GUEST);
    assert!(!is_async(&plain.store.as_context_mut()));
    let mut config = Config::new();
    config.memory_reservation(0);
    config.memory_reservation_for_growth(0);
    config.memory_guard_size(0);
    config.async_support(true);
    let engine = Engine::new(&config).expect("the configuration is valid");
    let mut store = Store::new(&engine, JavaState::new(WasiCtxBuilder::new().build_p1()));
    assert!(is_async(&store.as_context_mut()));
}

#[test]
fn return_without_a_result_slot_refuses_a_function_with_a_result() {
    let mut guest = guest(GUEST);
    let nothing_for = |actual| Err(BridgeError::ReturnMismatch { declared: None, actual: Some(actual) });
    let refused = invoke(&mut guest, "add_i32", &[JavaObject::Integer(1), JavaObject::Integer(2)], &JavaClass::Void);
    assert_eq!(refused, nothing_for(SlotType::I32));
    let refused = invoke(&mut guest, "identity_i64", &[JavaObject::Long(1)], &JavaClass::Null);
    assert_eq!(refused, nothing_for(SlotType::I64));
    // a return by reference: the record's offset fits the parameter, and the result is one too many
    let refused = invoke(&mut guest, "identity_i32", &[], &JavaClass::String);
    assert_eq!(refused, nothing_for(SlotType::I32));
    let refused = invoke(&mut guest, "length", &[JavaObject::Integer(1)], &JavaClass::ByteArray);
    assert_eq!(refused, nothing_for(SlotType::I32));
    // nothing was allocated and nothing freed
    assert_eq!(freed(&mut guest), vec![]);
}

#[test]
fn failed_frees_are_reported_to_the_caller() {
    let mut guest = guest(
        r#"(module
            (memory (export "memory") 1)
            (global $next (mut i32) (i32.const 4096))
            (func $alloc (export "__alloc_bytes") (param $size i32) (result i32)
              (local $ptr i32)
              (local.set $ptr (global.get $next))
              (global.set $next (i32.add (local.get $ptr) (local.get $size)))
              (local.get $ptr))
            (func (export "__dealloc_bytes") (param i32 i32) (unreachable))
            (func (export "identity_i32") (param i32) (result i32) (local.get 0))
            (func (export "echo") (param $ptr i32) (param $len i32) (param $ret i32)
              (local $out i32)
              (local.set $out (call $alloc (local.get $len)))
              (memory.copy (local.get $out) (local.get $ptr) (local.get $len))
              (i32.store (local.get $ret) (local.get $out))
              (i32.store offset=4 (local.get $ret) (local.get $len))))"#,
    );
    let mut store = guest.store.as_context_mut();
    let alloc = WasmAlloc::from_instance(&guest.instance, &mut store);
    let echo = get_function(&guest.instance, &mut store, "echo").expect("the guest exports the function");
    let mut reports = vec![BridgeError::MissingReturn];
    let back = call(
        &echo,
        alloc.as_ref(),
        &mut store,
        &[JavaObject::String("kept".to_string())],
        &JavaClass::String,
        &mut reports,
    );
    assert_eq!(back, Ok(Some(JavaObject::String("kept".to_string()))));
    // what was there stays, then the range of the value, the record and the range of the argument
    assert_eq!(reports.len(), 4);
    assert_eq!(reports[0], BridgeError::MissingReturn);
    assert!(reports[1..].iter().all(|report| matches!(report, BridgeError::GuestTrap(_))));
    // a call that allocates nothing has nothing to free and nothing to report
    let identity = get_function(&guest.instance, &mut store, "identity_i32").expect("the guest exports the function");
    let mut reports = Vec::new();
    let back = call(&identity, alloc.as_ref(), &mut store, &[JavaObject::Integer(5)], &JavaClass::Integer, &mut reports);
    assert_eq!(back, Ok(Some(JavaObject::Integer(5))));
    assert_eq!(reports, vec![]);
}

#[test]
fn function_is_found_where_the_instance_exports_one() {
    let mut guest = guest(GUEST);
    let mut store = guest.store.as_context_mut();
    assert!(get_function(&guest.instance, &mut store, "add_i32").is_some());
    assert!(get_function(&guest.instance, &mut store, "__alloc_bytes").is_some());
    assert!(get_function(&guest.instance, &mut store, "add_i128").is_none());
    assert!(get_function(&guest.instance, &mut store, "").is_none());
    // an export of that name that is no function
    assert!(get_function(&guest.instance, &mut store, "memory").is_none());
}

#[test]
fn deallocation_routine_of_another_type_cannot_free() {
    let mut guest = guest(
        r#"(module
            (memory (export "memory") 1)
            (func (export "__alloc_bytes") (param i32) (result i32) (i32.const 4096))
            (func (export "__dealloc_bytes") (param i32)))"#,
    );
    let mut store = guest.store.as_context_mut();
    let alloc = WasmAlloc::from_instance(&guest.instance, &mut store).expect("the guest has an allocator");
    let range = alloc.alloc_bytes(b"abc", &mut store).expect("the guest has room");
    let cannot_free = Err(BridgeError::AllocationFailure(AllocationFailure::CannotFree));
    assert_eq!(alloc.dealloc_bytes(range.wasm_slice(), &mut store), cannot_free);
    assert_eq!(alloc.dealloc(4096, &mut store), cannot_free);
    assert_eq!(range.free(&mut store), cannot_free);
    // the call itself is well, and says what could not be freed
    let func = get_function(&guest.instance, &mut store, "__dealloc_bytes").expect("the guest exports the function");
    let mut reports = Vec::new();
    let args = [JavaObject::Integer(4096)];
    assert_eq!(call(&func, Some(&alloc), &mut store, &args, &JavaClass::Void, &mut reports), Ok(None));
    assert_eq!(reports, vec![]);
    let func = get_function(&guest.instance, &mut store, "__alloc_bytes").expect("the guest exports the function");
    let args = [JavaObject::Integer(1)];
    assert_eq!(
        call(&func, Some(&alloc), &mut store, &args, &JavaClass::ByteArray, &mut reports),
        Err(BridgeError::SignatureMismatch(SignatureMismatch {
            index: 1,
            expected: SlotType::I32,
            actual: None
        }))
    );
    assert_eq!(reports, vec![]);
}

#[test]
fn size_beyond_32_bits_is_never_asked_for() {
    let mut guest = guest(GUEST);
    let mut store = guest.store.as_context_mut();
    let alloc = WasmAlloc::from_instance(&guest.instance, &mut store).expect("the guest has an allocator");
    let size = u32::MAX as usize + 1;
    assert_eq!(
        alloc.alloc_size(size, &mut store).err(),
        Some(BridgeError::AllocationFailure(AllocationFailure::TooLarge { bytes: size }))
    );
    assert!(matches!(
        alloc.alloc_size(u32::MAX as usize, &mut store),
        Err(BridgeError::AllocationFailure(AllocationFailure::OutOfMemory { size: u32::MAX }))
    ));
}

fn out_of_bounds(offset: u32, length: u32) -> BridgeError {
    BridgeError::AllocationFailure(AllocationFailure::OutOfBounds { offset, length, memory: 65536 })
}

#[test]
fn allocation_reads_back_what_was_written() {
    let mut guest = guest(GUEST);
    let mut store = guest.store.as_context_mut();
    let alloc = WasmAlloc::from_instance(&guest.instance, &mut store).expect("the guest has an allocator");
    assert_eq!(alloc.memory_len(&store), 65536);
    assert!(ByteSlice(b"first".to_vec()).compatible_with_store(&store));
    let first = alloc.alloc_bytes(b"first", &mut store).expect("the guest has room");
    assert_eq!(first.wasm_slice(), WasmSlice::new(4096, 5));
    assert_eq!(first.read(&store), Ok(b"first".to_vec()));
    assert_eq!(alloc.read(first.wasm_slice(), &store), Ok(b"first".to_vec()));
    // a second allocation while the first is live gets a range of its own
    let second = alloc.alloc_bytes(b"second!", &mut store).expect("the guest has room");
    let (a, b) = (first.wasm_slice(), second.wasm_slice());
    assert!(a.offset() + a.length() <= b.offset() || b.offset() + b.length() <= a.offset());
    assert_eq!(second.read(&store), Ok(b"second!".to_vec()));
    assert_eq!(first.read(&store), Ok(b"first".to_vec()));
    let empty = alloc.alloc_bytes(b"", &mut store).expect("the guest has room");
    assert_eq!(empty.wasm_slice().length(), 0);
    assert_eq!(empty.read(&store), Ok(vec![]));
    assert_eq!(second.free(&mut store), Ok(()));
    assert_eq!(first.free(&mut store), Ok(()));
    assert_eq!(alloc.dealloc_bytes(empty.wasm_slice(), &mut store), Ok(()));
    assert_eq!(freed(&mut guest), vec![(4101, 7), (4096, 5), (4108, 0)]);
}

#[test]
fn view_into_guest_memory_writes_through() {
    let mut guest = guest(GUEST);
    let mut store = guest.store.as_context_mut();
    let alloc = WasmAlloc::from_instance(&guest.instance, &mut store).expect("the guest has an allocator");
    let range = alloc.alloc_bytes(b"abcdef", &mut store).expect("the guest has room");
    let view = alloc.as_mut(WasmSlice::new(4098, 3), &mut store).expect("the range is inside the memory");
    assert_eq!(view, b"cde");
    view.copy_from_slice(b"XYZ");
    assert_eq!(range.read(&store), Ok(b"abXYZf".to_vec()));
    let view = range.as_mut(&mut store).expect("the range is inside the memory");
    assert_eq!(view, b"abXYZf");
    view[0] = b'_';
    assert_eq!(alloc.read(WasmSlice::new(4096, 2), &store), Ok(b"_b".to_vec()));
    assert_eq!(alloc.as_mut(WasmSlice::new(65536, 0), &mut store).map(|view| view.len()), Ok(0));
    assert_eq!(alloc.as_mut(WasmSlice::new(65535, 2), &mut store).err(), Some(out_of_bounds(65535, 2)));
    assert_eq!(alloc.as_mut(WasmSlice::new(0, -1), &mut store).err(), Some(out_of_bounds(0, 0xffff_ffff)));
}

#[test]
fn allocation_of_a_size_is_the_hosts_to_fill() {
    let mut guest = guest(GUEST);
    let mut store = guest.store.as_context_mut();
    let alloc = WasmAlloc::from_instance(&guest.instance, &mut store).expect("the guest has an allocator");
    let range = alloc.alloc_size(16, &mut store).expect("the guest has room");
    assert_eq!(range.wasm_slice(), WasmSlice::new(4096, 16));
    assert_eq!(alloc.write(4100, &[1, 2, 3], &mut store), Ok(()));
    assert_eq!(range.read(&store), Ok(vec![0, 0, 0, 0, 1, 2, 3, 0, 0, 0, 0, 0, 0, 0, 0, 0]));
    assert!(matches!(
        alloc.alloc_size(61440, &mut store),
        Err(BridgeError::AllocationFailure(AllocationFailure::OutOfMemory { size: 61440 }))
    ));
    assert!(alloc.alloc_size(61424, &mut store).is_ok());
}

#[test]
fn access_outside_the_memory_is_an_error() {
    let mut guest = guest(GUEST);
    let mut store = guest.store.as_context_mut();
    let alloc = WasmAlloc::from_instance(&guest.instance, &mut store).expect("the guest has an allocator");
    assert_eq!(alloc.write(65534, &[1, 2], &mut store), Ok(()));
    assert_eq!(alloc.write(65535, &[7, 8], &mut store), Err(out_of_bounds(65535, 2)));
    assert_eq!(alloc.write(65536, &[], &mut store), Ok(()));
    assert_eq!(alloc.write(65537, &[], &mut store), Err(out_of_bounds(65537, 0)));
    // nothing of the refused write arrived
    assert_eq!(alloc.read(WasmSlice::new(65534, 2), &store), Ok(vec![1, 2]));
    assert_eq!(alloc.read(WasmSlice::new(65534, 3), &store), Err(out_of_bounds(65534, 3)));
    assert_eq!(alloc.read(WasmSlice::new(-1, 1), &store), Err(out_of_bounds(0xffff_ffff, 1)));
    assert_eq!(alloc.read(WasmSlice::new(0, -1), &store), Err(out_of_bounds(0, 0xffff_ffff)));
    assert_eq!(alloc.obj_as_mut(65530, &store), Err(out_of_bounds(65530, 8)));
    assert_eq!(alloc.store_obj(65530, WasmSlice::new(1, 2), &mut store), Err(out_of_bounds(65530, 8)));
    assert_eq!(IntoByteBuffer(WasmSlice::new(65535, 2)).into_java(Some(&alloc), &store), Err(out_of_bounds(65535, 2)));
    assert_eq!(IntoByteArray(WasmSlice::new(65535, 2)).into_java(Some(&alloc), &store), Err(out_of_bounds(65535, 2)));
    assert_eq!(IntoString(WasmSlice::new(65535, 2)).into_java(Some(&alloc), &store), Err(out_of_bounds(65535, 2)));
}

#[test]
fn record_carries_a_descriptor_through_guest_memory() {
    let mut guest = guest(GUEST);
    let mut store = guest.store.as_context_mut();
    let alloc = WasmAlloc::from_instance(&guest.instance, &mut store).expect("the guest has an allocator");
    alloc.write(4096, &[9; 8], &mut store).expect("the range is inside the memory");
    let record = alloc.alloc_record(&mut store).expect("the guest has room");
    assert_eq!(record.wasm_slice(), WasmSlice::new(4096, 8));
    assert_eq!(record.read(&store), Ok(vec![0; 8]));
    assert_eq!(record.obj_as_mut(&store), Ok(WasmSlice::new(0, 0)));
    let ptr = record.wasm_slice().ptr;
    assert_eq!(alloc.store_obj(ptr, WasmSlice::new(0x0102_0304, 5), &mut store), Ok(()));
    assert_eq!(record.read(&store), Ok(vec![4, 3, 2, 1, 5, 0, 0, 0]));
    assert_eq!(record.obj_as_mut(&store), Ok(WasmSlice::new(0x0102_0304, 5)));
    assert_eq!(alloc.obj_as_mut(ptr, &store), Ok(WasmSlice::new(0x0102_0304, 5)));
    assert_eq!(alloc.dealloc(ptr, &mut store), Ok(()));
    assert_eq!(freed(&mut guest), vec![(4096, 8)]);
}

#[test]
fn ranges_become_managed_objects() {
    let mut guest = guest(GUEST);
    let mut store = guest.store.as_context_mut();
    let alloc = WasmAlloc::from_instance(&guest.instance, &mut store).expect("the guest has an allocator");
    let text = WasmSlice::new(2048, 12);
    assert_eq!(IntoString(text).into_java(Some(&alloc), &store), Ok(JavaObject::String("Hello, Java!".to_string())));
    assert_eq!(IntoByteArray(text).into_java(Some(&alloc), &store), Ok(JavaObject::ByteArray(b"Hello, Java!".to_vec())));
    assert_eq!(IntoByteBuffer(text).into_java(Some(&alloc), &store), Ok(JavaObject::ByteBuffer(text)));
    assert_eq!(IntoString(text).into_java(None, &store), Err(BridgeError::MissingAllocator));
    assert_eq!(IntoByteArray(text).into_java(None, &store), Err(BridgeError::MissingAllocator));
    assert_eq!(IntoByteBuffer(text).into_java(None, &store), Err(BridgeError::MissingAllocator));
}

#[test]
fn inputs_of_a_callback_become_managed_objects() {
    let mut guest = guest(GUEST);
    let mut store = guest.store.as_context_mut();
    let alloc = WasmAlloc::from_instance(&guest.instance, &mut store).expect("the guest has an allocator");
    let classes = [
        JavaClass::Long,
        JavaClass::String,
        JavaClass::FloatPrimitive,
        JavaClass::ByteArray,
        JavaClass::ByteBuffer { name: "java.nio.ByteBuffer".to_string() },
        JavaClass::Integer,
        JavaClass::Double,
    ];
    let signature = CallSignature::from_classes(&classes, &JavaClass::String).expect("the classes have kinds");
    let inputs = [
        SlotValue::I64(-3),
        SlotValue::I32(2048),
        SlotValue::I32(5),
        SlotValue::F32(0x3fc0_0000),
        SlotValue::I32(2055),
        SlotValue::I32(4),
        SlotValue::I32(2048),
        SlotValue::I32(12),
        SlotValue::I32(i32::MIN),
        SlotValue::F64(7),
        SlotValue::I32(4096),
    ];
    let call = signature.load_args(&inputs, Some(&alloc), &store).expect("the inputs fit the kinds");
    assert_eq!(
        call.args,
        vec![
            JavaObject::Long(-3),
            JavaObject::String("Hello".to_string()),
            JavaObject::Float(0x3fc0_0000),
            JavaObject::ByteArray(b"Java".to_vec()),
            JavaObject::ByteBuffer(WasmSlice::new(2048, 12)),
            JavaObject::Integer(i32::MIN),
            JavaObject::Double(7),
        ]
    );
    assert_eq!(call.ret_by_ref_ptr, Some(4096));
    // without the trailing slot there is no record to return into
    let call = signature.load_args(&inputs[..10], Some(&alloc), &store).expect("the inputs fit the kinds");
    assert_eq!(call.ret_by_ref_ptr, None);
    assert_eq!(call.args.len(), 7);
    // a slot of another type is found before anything is read
    let mut wrong = inputs;
    wrong[8] = SlotValue::I64(1);
    wrong[1] = SlotValue::I32(-1);
    assert_eq!(
        signature.load_args(&wrong, Some(&alloc), &store).err(),
        Some(BridgeError::SignatureMismatch(SignatureMismatch {
            index: 8,
            expected: SlotType::I32,
            actual: Some(SlotType::I64),
        }))
    );
    assert_eq!(
        signature.load_args(&inputs[..3], Some(&alloc), &store).err(),
        Some(BridgeError::SignatureMismatch(SignatureMismatch {
            index: 3,
            expected: SlotType::F32,
            actual: None,
        }))
    );
    let mut outside = inputs;
    outside[5] = SlotValue::I32(65536);
    assert_eq!(signature.load_args(&outside, Some(&alloc), &store).err(), Some(out_of_bounds(2055, 65536)));
    assert_eq!(signature.load_args(&inputs, None, &store).err(), Some(BridgeError::MissingAllocator));
    let scalars = CallSignature::from_classes(&[JavaClass::Long], &JavaClass::Long).expect("the classes have kinds");
    let call = scalars.load_args(&inputs[..1], None, &store).expect("scalars need no allocator");
    assert_eq!((call.args, call.ret_by_ref_ptr), (vec![JavaObject::Long(-3)], None));
    drop(store);
    assert_eq!(freed(&mut guest), vec![]);
}

#[test]
fn result_of_a_callback_goes_into_the_slot_or_the_record() {
    let mut guest = guest(GUEST);
    let mut store = guest.store.as_context_mut();
    let alloc = WasmAlloc::from_instance(&guest.instance, &mut store).expect("the guest has an allocator");
    let scalar = Some(WasmVal::Val(SlotValue::I64(5)));
    let bytes = Some(WasmVal::ByteArray(&[1, 2, 3]));
    let text = Some(WasmVal::String("h\u{e9}"));
    assert_eq!(store_result(scalar, true, None, Some(&alloc), &mut store, &mut Vec::new()), Ok(Some(SlotValue::I64(5))));
    assert_eq!(store_result(scalar, true, None, None, &mut store, &mut Vec::new()), Ok(Some(SlotValue::I64(5))));
    assert_eq!(store_result(None, true, None, None, &mut store, &mut Vec::new()), Ok(Some(SlotValue::Ref)));
    assert_eq!(store_result(None, false, None, None, &mut store, &mut Vec::new()), Ok(None));
    // a result that the guest has no place for is dropped
    assert_eq!(store_result(scalar, false, None, Some(&alloc), &mut store, &mut Vec::new()), Ok(None));
    // but a record that the guest passed must not stay unwritten
    assert_eq!(store_result(scalar, false, Some(4096), Some(&alloc), &mut store, &mut Vec::new()), Err(BridgeError::MissingReturn));
    assert_eq!(store_result(None, false, Some(4096), Some(&alloc), &mut store, &mut Vec::new()), Err(BridgeError::MissingReturn));
    assert_eq!(store_result(bytes, true, Some(4096), Some(&alloc), &mut store, &mut Vec::new()), Err(BridgeError::UnexpectedReturn));
    assert_eq!(store_result(text, true, None, None, &mut store, &mut Vec::new()), Err(BridgeError::UnexpectedReturn));
    assert_eq!(store_result(bytes, false, None, Some(&alloc), &mut store, &mut Vec::new()), Err(BridgeError::MissingReturnPointer));
    assert_eq!(store_result(text, false, Some(4096), None, &mut store, &mut Vec::new()), Err(BridgeError::MissingAllocator));

    let record = alloc.alloc_record(&mut store).expect("the guest has room");
    let ptr = record.wasm_slice().ptr;
    assert_eq!(store_result(bytes, false, Some(ptr), Some(&alloc), &mut store, &mut Vec::new()), Ok(None));
    let written = record.obj_as_mut(&store).expect("the record is inside the memory");
    assert_eq!(written, WasmSlice::new(4104, 3));
    assert_eq!(alloc.read(written, &store), Ok(vec![1, 2, 3]));
    assert_eq!(store_result(text, false, Some(ptr), Some(&alloc), &mut store, &mut Vec::new()), Ok(None));
    let written = record.obj_as_mut(&store).expect("the record is inside the memory");
    assert_eq!(alloc.read(written, &store), Ok("h\u{e9}".as_bytes().to_vec()));
    // a record outside the memory: the range that was allocated for the bytes goes back
    let mut reports = Vec::new();
    assert_eq!(
        store_result(bytes, false, Some(65532), Some(&alloc), &mut store, &mut reports),
        Err(out_of_bounds(65532, 8))
    );
    assert_eq!(reports, vec![]);
    drop(store);
    // what was returned by reference is the guest's to free
    assert_eq!(freed(&mut guest), vec![(4110, 3)]);
}

#[test]
fn range_is_handed_over_or_given_back() {
    let mut guest = guest(GUEST);
    let mut store = guest.store.as_context_mut();
    let alloc = WasmAlloc::from_instance(&guest.instance, &mut store).expect("the guest has an allocator");
    let mut reports = Vec::new();
    let range = alloc.alloc_bytes(b"over", &mut store).expect("the guest has room");
    assert_eq!(range.hand_over(1024, &mut store, &mut reports), Ok(()));
    assert_eq!(alloc.obj_as_mut(1024, &store), Ok(WasmSlice::new(4096, 4)));
    let range = alloc.alloc_bytes(b"back", &mut store).expect("the guest has room");
    assert_eq!(range.hand_over(65530, &mut store, &mut reports), Err(out_of_bounds(65530, 8)));
    let range = alloc.alloc_bytes(b"", &mut store).expect("the guest has room");
    assert_eq!(range.hand_over(-1, &mut store, &mut reports), Err(out_of_bounds(u32::MAX, 8)));
    assert_eq!(reports, vec![]);
    drop(store);
    assert_eq!(freed(&mut guest), vec![(4100, 4), (4104, 0)]);

    // a guest that cannot free: the failure of the write is returned, that of the free reported
    let mut guest = self::guest(
        r#"(module
            (memory (export "memory") 1)
            (func (export "__alloc_bytes") (param i32) (result i32) (i32.const 4096))
            (func (export "__dealloc_bytes") (param i32)))"#,
    );
    let mut store = guest.store.as_context_mut();
    let alloc = WasmAlloc::from_instance(&guest.instance, &mut store).expect("the guest has an allocator");
    let range = alloc.alloc_bytes(b"back", &mut store).expect("the guest has room");
    assert_eq!(range.hand_over(65530, &mut store, &mut reports), Err(out_of_bounds(65530, 8)));
    assert_eq!(reports, vec![BridgeError::AllocationFailure(AllocationFailure::CannotFree)]);
    let range = alloc.alloc_bytes(b"over", &mut store).expect("the guest has room");
    assert_eq!(range.hand_over(8, &mut store, &mut reports), Ok(()));
    assert_eq!(reports.len(), 1);
}

#[test]
fn range_outside_the_memory_is_no_allocation() {
    let mut guest = guest(
        r#"(module
            (memory (export "memory") 1)
            (global $frees (export "frees") (mut i32) (i32.const 0))
            (func (export "__alloc_bytes") (param i32) (result i32) (i32.const 70000))
            (func (export "__dealloc_bytes") (param i32 i32)
              (global.set $frees (i32.add (global.get $frees) (i32.const 1)))))"#,
    );
    let mut store = guest.store.as_context_mut();
    let alloc = WasmAlloc::from_instance(&guest.instance, &mut store).expect("the guest has an allocator");
    let outside = |length| {
        Some(BridgeError::AllocationFailure(AllocationFailure::OutOfBounds { offset: 70000, length, memory: 65536 }))
    };
    assert_eq!(alloc.alloc_bytes(b"abc", &mut store).err(), outside(3));
    assert_eq!(alloc.alloc_record(&mut store).err(), outside(8));
    // the size alone is not held against the memory
    assert_eq!(alloc.alloc_size(3, &mut store).map(|range| range.wasm_slice()), Ok(WasmSlice::new(70000, 3)));
    drop(store);
    let frees = guest.instance.get_global(&mut guest.store, "frees").expect("the guest counts its frees");
    assert_eq!(frees.get(&mut guest.store).i32(), Some(0));
}

#[test]
fn values_and_types_go_to_the_engine_and_back() {
    let plain = vec![
        SlotValue::I32(-1),
        SlotValue::I64(i64::MIN),
        SlotValue::F32(0x7fc0_0001),
        SlotValue::F64(u64::MAX),
        SlotValue::V128(u128::MAX - 5),
        SlotValue::Ref,
    ];
    let engine = to_engine(&plain);
    assert_eq!(engine.len(), 6);
    assert_eq!(engine[0].i32(), Some(-1));
    assert_eq!(engine[1].i64(), Some(i64::MIN));
    assert_eq!(engine[2].f32().map(f32::to_bits), Some(0x7fc0_0001));
    assert_eq!(engine[3].f64().map(f64::to_bits), Some(u64::MAX));
    assert_eq!(engine[4].v128().map(|v| v.as_u128()), Some(u128::MAX - 5));
    assert!(matches!(engine[5], wasmtime::Val::ExternRef(None)));
    assert_eq!(from_engine(&engine), plain);
    assert_eq!(from_engine(&[wasmtime::Val::FuncRef(None), wasmtime::Val::AnyRef(None)]), vec![SlotValue::Ref; 2]);
    assert_eq!(to_engine(&[]).len(), 0);

    let tys = [SlotType::I32, SlotType::I64, SlotType::F32, SlotType::F64, SlotType::V128, SlotType::Ref];
    let engine = engine_types(&tys);
    assert_eq!(engine.len(), 6);
    assert!(engine[0].is_i32() && engine[1].is_i64() && engine[2].is_f32() && engine[3].is_f64());
    assert!(engine[4].is_v128() && engine[5].is_externref());

    let mut outputs = [wasmtime::Val::I32(1), wasmtime::Val::I32(2)];
    place_result(None, &mut outputs);
    assert_eq!(from_engine(&outputs), vec![SlotValue::I32(1), SlotValue::I32(2)]);
    place_result(Some(SlotValue::I64(9)), &mut outputs);
    assert_eq!(from_engine(&outputs), vec![SlotValue::I64(9), SlotValue::I32(2)]);
    place_result(Some(SlotValue::I64(9)), &mut []);
}

#[test]
fn values_go_into_slots_and_guest_memory() {
    let mut guest = guest(GUEST);
    let mut store = guest.store.as_context_mut();
    let alloc = WasmAlloc::from_instance(&guest.instance, &mut store).expect("the guest has an allocator");
    let mut args = Vec::new();
    let none = WasmVal::Val(SlotValue::F64(1)).store_to_args(&mut args, None, &mut store);
    assert!(matches!(none, Ok(None)));
    let bytes = WasmVal::ByteArray(&[7, 8]).store_to_args(&mut args, Some(&alloc), &mut store);
    let bytes = bytes.expect("the guest has room").expect("bytes live in guest memory");
    let text = WasmVal::String("abc").store_to_args(&mut args, Some(&alloc), &mut store);
    let text = text.expect("the guest has room").expect("text lives in guest memory");
    assert_eq!(
        args,
        vec![SlotValue::F64(1), SlotValue::I32(4096), SlotValue::I32(2), SlotValue::I32(4098), SlotValue::I32(3)]
    );
    assert_eq!(bytes.read(&store), Ok(vec![7, 8]));
    assert_eq!(text.read(&store), Ok(b"abc".to_vec()));
    let refused = WasmVal::String("abc").store_to_args(&mut args, None, &mut store);
    assert!(matches!(refused, Err(BridgeError::MissingAllocator)));
    assert_eq!(args.len(), 5);

    let record = WasmTy::String.return_or_store_to_arg(&mut args, Some(&alloc), &mut store);
    let record = record.expect("the guest has room").expect("text returns by reference");
    assert_eq!(args[5], SlotValue::I32(4101));
    assert_eq!(record.read(&store), Ok(vec![0; 8]));
    assert!(matches!(WasmTy::Slot(SlotType::I32).return_or_store_to_arg(&mut args, None, &mut store), Ok(None)));
    assert!(matches!(i64::return_or_store_to_arg(&mut args, Some(&alloc), &mut store), Ok(None)));
    assert!(matches!(
        WasmTy::ByteArray.return_or_store_to_arg(&mut args, None, &mut store),
        Err(BridgeError::MissingAllocator)
    ));
    assert_eq!(args.len(), 6);
}

#[test]
fn returned_values_are_loaded_and_their_ranges_freed() {
    let mut guest = guest(GUEST);
    let mut store = guest.store.as_context_mut();
    let alloc = WasmAlloc::from_instance(&guest.instance, &mut store).expect("the guest has an allocator");
    let load = |ty, ret: Option<&SlotValue>, store: &mut wasmtime::StoreContextMut<JavaState>| {
        return_or_load_or_from_arg(ty, ret, None, Some(&alloc), store, &mut Vec::new())
    };
    assert_eq!(load(WasmTy::Slot(SlotType::I32), Some(&SlotValue::I32(-1)), &mut store), Ok(JavaObject::Integer(-1)));
    assert_eq!(load(WasmTy::Slot(SlotType::F64), Some(&SlotValue::F64(9)), &mut store), Ok(JavaObject::Double(9)));
    assert_eq!(load(WasmTy::Slot(SlotType::I32), None, &mut store), Err(BridgeError::MissingReturn));
    assert_eq!(
        load(WasmTy::Slot(SlotType::I32), Some(&SlotValue::I64(1)), &mut store),
        Err(BridgeError::ReturnMismatch { declared: Some(SlotType::I32), actual: Some(SlotType::I64) })
    );
    assert_eq!(
        load(WasmTy::Slot(SlotType::V128), Some(&SlotValue::V128(1)), &mut store),
        Err(BridgeError::UnsupportedReturn { ty: SlotType::V128 })
    );
    assert_eq!(load(WasmTy::ByteBuffer, None, &mut store), Err(BridgeError::DirectBufferReturn));
    assert_eq!(load(WasmTy::String, None, &mut store), Err(BridgeError::MissingReturnPointer));
    assert_eq!(load(WasmTy::ByteArray, Some(&SlotValue::I32(1)), &mut store), Err(BridgeError::MissingReturnPointer));

    let mut reports = Vec::new();
    let text = alloc.alloc_bytes(b"returned", &mut store).expect("the guest has room").wasm_slice();
    let record = alloc.alloc_record(&mut store).expect("the guest has room");
    alloc.store_obj(record.wasm_slice().ptr, text, &mut store).expect("the record is inside the memory");
    let loaded = return_or_load_or_from_arg(WasmTy::String, None, Some(record), Some(&alloc), &mut store, &mut reports);
    assert_eq!(loaded, Ok(JavaObject::String("returned".to_string())));
    // a record that points outside the memory: nothing is read, and the record is freed
    let record = alloc.alloc_record(&mut store).expect("the guest has room");
    alloc.store_obj(record.wasm_slice().ptr, WasmSlice::new(65530, 10), &mut store).expect("the record is inside the memory");
    let loaded = return_or_load_or_from_arg(WasmTy::ByteArray, None, Some(record), Some(&alloc), &mut store, &mut reports);
    assert_eq!(loaded, Err(out_of_bounds(65530, 10)));
    let record = WasmSliceWrapper::new(&alloc, WasmSlice::new(65530, 8));
    let loaded = return_or_load_or_from_arg(WasmTy::ByteArray, None, Some(record), Some(&alloc), &mut store, &mut reports);
    assert_eq!(loaded, Err(out_of_bounds(65530, 8)));
    assert_eq!(reports, vec![]);
    drop(store);
    assert_eq!(freed(&mut guest), vec![(4096, 8), (4104, 8), (65530, 10), (4112, 8), (65530, 8)]);
}

#[test]
fn guest_with_system_interface_is_called_the_same_way() {
    let engine = engine();
    let module = Module::new(
        &engine,
        r#"(module
            (import "wasi_snapshot_preview1" "sched_yield" (func $yield (result i32)))
            (memory (export "memory") 1)
            (func (export "yield") (result i32) (call $yield)))"#,
    )
    .expect("the guest module is valid");
    let mut linker: Linker<JavaState> = Linker::new(&engine);
    wasmtime_wasi::preview1::add_to_linker_sync(&mut linker, |state: &mut JavaState| state.wasi_mut())
        .expect("the system interface links");
    let mut store = Store::new(&engine, JavaState::new(WasiCtxBuilder::new().build_p1()));
    let instance = linker.instantiate(&mut store, &module).expect("the imports are linked");
    let mut guest = Guest { store, instance };
    assert_eq!(invoke(&mut guest, "yield", &[], &JavaClass::Integer), Ok(Some(JavaObject::Integer(0))));
}
