//! The guest engine, as far as the bridge relies on it.
//!
//! Everything in this file is believed, not proved: each item names the engine function it
//! stands for and says what is claimed of it.

use vstd::prelude::*;
use crate::val::{SlotType, SlotValue};
use crate::wasm_state::JavaState;

verus! {

/// `wasmtime::Memory`: the handle of a linear memory in a store.
#[verifier::external_type_specification]
#[verifier::external_body]
pub struct ExMemory(wasmtime::Memory);

/// `wasmtime::Func`: the handle of a function in a store.
#[verifier::external_type_specification]
#[verifier::external_body]
pub struct ExFunc(wasmtime::Func);

/// `wasmtime::Instance`: the handle of an instantiated module in a store.
#[verifier::external_type_specification]
#[verifier::external_body]
pub struct ExInstance(wasmtime::Instance);

/// `wasmtime::StoreContextMut`: exclusive access to a store for the length of a borrow.
#[verifier::external_type_specification]
#[verifier::external_body]
#[verifier::reject_recursive_types(T)]
pub struct ExStoreContextMut<'a, T: 'static>(wasmtime::StoreContextMut<'a, T>);

/// `wasmtime::Caller`: what a host function gets of the instance that called it.
#[verifier::external_type_specification]
#[verifier::external_body]
#[verifier::reject_recursive_types(T)]
pub struct ExCaller<'a, T: 'static>(wasmtime::Caller<'a, T>);

/// `wasmtime::Val`: a slot value as the engine holds it.
#[verifier::external_type_specification]
#[verifier::external_body]
pub struct ExEngineVal(wasmtime::Val);

/// `wasmtime::ValType`: a slot type as the engine holds it.
#[verifier::external_type_specification]
#[verifier::external_body]
pub struct ExEngineTy(wasmtime::ValType);

/// `anyhow::Error`: the error of a call into the guest.
#[verifier::external_type_specification]
#[verifier::external_body]
pub struct ExAnyhowError(anyhow::Error);

/// The identity of the store behind a context. The engine stamps every memory, function and
/// instance with the identity of the store that made it, keeps the stamp in the handle, and
/// panics when a handle is used with another store.
pub uninterp spec fn store_id(store: &wasmtime::StoreContextMut<JavaState>) -> int;

/// Whether the store was configured for asynchronous calls, in which case a synchronous call
/// panics.
pub uninterp spec fn runs_async(store: &wasmtime::StoreContextMut<JavaState>) -> bool;

/// The identity of the store that a host function's caller runs in.
pub uninterp spec fn caller_store(caller: &wasmtime::Caller<JavaState>) -> int;

/// Whether the caller's store was configured for asynchronous calls.
pub uninterp spec fn caller_runs_async(caller: &wasmtime::Caller<JavaState>) -> bool;

/// The bytes of a linear memory, as the store holds them now.
pub uninterp spec fn linear_memory(
    store: &wasmtime::StoreContextMut<JavaState>,
    memory: &wasmtime::Memory,
) -> Seq<u8>;

/// The identity of the store that owns a memory.
pub uninterp spec fn memory_owner(memory: &wasmtime::Memory) -> int;

/// The identity of the store that owns a function.
pub uninterp spec fn func_owner(func: &wasmtime::Func) -> int;

/// The identity of the store that owns an instance.
pub uninterp spec fn instance_owner(instance: &wasmtime::Instance) -> int;

/// The parameter and result slot types a function was made with, every reference type as
/// `Ref`. A function keeps its type as long as it lives.
pub uninterp spec fn func_ty(func: &wasmtime::Func) -> (Seq<SlotType>, Seq<SlotType>);

/// Whether an instance exports a linear memory under that name: one that is not shared
/// between threads. What an instance exports is settled when it is made.
pub uninterp spec fn exports_memory(instance: &wasmtime::Instance, name: Seq<char>) -> bool;

/// Whether an instance exports a function under that name.
pub uninterp spec fn exports_func(instance: &wasmtime::Instance, name: Seq<char>) -> bool;

/// The bytes of a linear memory, as the store that a host function's caller runs in holds
/// them now.
pub uninterp spec fn caller_linear_memory(
    caller: &wasmtime::Caller<JavaState>,
    memory: &wasmtime::Memory,
) -> Seq<u8>;

/// Whether the instance that called a host function exports a linear memory under that
/// name, one that is not shared between threads.
pub uninterp spec fn caller_exports_memory(
    caller: &wasmtime::Caller<JavaState>,
    name: Seq<char>,
) -> bool;

/// Whether the instance that called a host function exports a function under that name.
pub uninterp spec fn caller_exports_func(
    caller: &wasmtime::Caller<JavaState>,
    name: Seq<char>,
) -> bool;

/// The plain value that a slot value of the engine stands for: the number of a numeric slot,
/// and `Ref` for every kind of reference.
pub uninterp spec fn slot_of(val: &wasmtime::Val) -> SlotValue;

/// The plain slot type that a slot type of the engine stands for: the numeric type of the
/// same name, and `Ref` for every type of reference.
pub uninterp spec fn slot_ty_of(ty: &wasmtime::ValType) -> SlotType;

/// A memory image after `bytes` replaced what stood at `offset`.
pub open spec fn overwritten(image: Seq<u8>, offset: int, bytes: Seq<u8>) -> Seq<u8> {
    image.subrange(0, offset) + bytes + image.skip(offset + bytes.len())
}

/// What no operation on a store changes: its identity and its calling convention.
pub open spec fn same_store(
    before: &wasmtime::StoreContextMut<JavaState>,
    after: &wasmtime::StoreContextMut<JavaState>,
) -> bool {
    store_id(after) == store_id(before) && runs_async(after) == runs_async(before)
}

/// What looking at a caller does not change: the store it runs in, the calling convention
/// of that store, and what the calling instance exports.
pub open spec fn same_caller(
    before: &wasmtime::Caller<JavaState>,
    after: &wasmtime::Caller<JavaState>,
) -> bool {
    &&& caller_store(after) == caller_store(before)
    &&& caller_runs_async(after) == caller_runs_async(before)
    &&& forall|name: Seq<char>| #[trigger]
        caller_exports_memory(after, name) == caller_exports_memory(before, name)
    &&& forall|name: Seq<char>| #[trigger]
        caller_exports_func(after, name) == caller_exports_func(before, name)
}

/// What looking up an export through a caller does not change: the bytes of every linear
/// memory of its store.
pub open spec fn same_caller_memories(
    before: &wasmtime::Caller<JavaState>,
    after: &wasmtime::Caller<JavaState>,
) -> bool {
    forall|memory: wasmtime::Memory| #[trigger]
        caller_linear_memory(after, &memory) == caller_linear_memory(before, &memory)
}

/// What looking up an export does not change: the bytes of every linear memory of the
/// store.
pub open spec fn same_memories(
    before: &wasmtime::StoreContextMut<JavaState>,
    after: &wasmtime::StoreContextMut<JavaState>,
) -> bool {
    forall|memory: wasmtime::Memory| #[trigger]
        linear_memory(after, &memory) == linear_memory(before, &memory)
}

/// Whether every result of a function is one of the four fixed-width numbers. The engine
/// rebuilds each result of a call from its type, and there are types for which it has no
/// value to give.
pub open spec fn scalar_results(func: &wasmtime::Func) -> bool {
    forall|i: int|
        0 <= i < func_ty(func).1.len() ==> (#[trigger] func_ty(func).1[i]).spec_is_scalar()
}

/// The plain slot types of slot values of the engine.
pub open spec fn engine_tys(vals: Seq<wasmtime::Val>) -> Seq<SlotType> {
    vals.map_values(|val: wasmtime::Val| slot_of(&val).spec_ty())
}

/// The plain values that slot values of the engine stand for.
pub open spec fn plain_vals(vals: Seq<wasmtime::Val>) -> Seq<SlotValue> {
    vals.map_values(|val: wasmtime::Val| slot_of(&val))
}

/// The plain slot types that slot types of the engine stand for.
pub open spec fn plain_tys(tys: Seq<wasmtime::ValType>) -> Seq<SlotType> {
    tys.map_values(|ty: wasmtime::ValType| slot_ty_of(&ty))
}

/// Whether a function can be called through a store: the store owns it and runs synchronously.
pub open spec fn callable(
    store: &wasmtime::StoreContextMut<JavaState>,
    func: &wasmtime::Func,
) -> bool {
    func_owner(func) == store_id(store) && !runs_async(store)
}

/// `Instance::get_memory`: the exported memory of that name, if the instance exports one. The
/// memory belongs to the instance's store. The lookup writes no byte of any memory.
#[verifier::external_body]
pub(crate) fn instance_memory(
    instance: &wasmtime::Instance,
    store: &mut wasmtime::StoreContextMut<JavaState>,
    name: &str,
) -> (memory: Option<wasmtime::Memory>)
    requires
        instance_owner(instance) == store_id(old(store)),
    ensures
        same_store(old(store), final(store)),
        same_memories(old(store), final(store)),
        memory is Some <==> exports_memory(instance, name@),
        memory matches Some(m) ==> memory_owner(&m) == instance_owner(instance),
{
    instance.get_memory(store, name)
}

/// `Instance::get_func`: the exported function of that name, if the instance exports one. The
/// function belongs to the instance's store. The lookup writes no byte of any memory.
#[verifier::external_body]
pub(crate) fn instance_func(
    instance: &wasmtime::Instance,
    store: &mut wasmtime::StoreContextMut<JavaState>,
    name: &str,
) -> (func: Option<wasmtime::Func>)
    requires
        instance_owner(instance) == store_id(old(store)),
    ensures
        same_store(old(store), final(store)),
        same_memories(old(store), final(store)),
        func is Some <==> exports_func(instance, name@),
        func matches Some(f) ==> func_owner(&f) == instance_owner(instance),
{
    instance.get_func(store, name)
}

/// `Caller::get_export`, then `Extern::into_memory`: the memory of that name exported by the
/// calling instance, if it exports one. It belongs to the caller's store. The lookup writes
/// no byte of any memory.
#[verifier::external_body]
pub(crate) fn caller_memory(
    caller: &mut wasmtime::Caller<JavaState>,
    name: &str,
) -> (memory: Option<wasmtime::Memory>)
    ensures
        same_caller(old(caller), final(caller)),
        same_caller_memories(old(caller), final(caller)),
        memory is Some <==> caller_exports_memory(old(caller), name@),
        memory matches Some(m) ==> memory_owner(&m) == caller_store(old(caller)),
{
    caller.get_export(name).and_then(wasmtime::Extern::into_memory)
}

/// `Caller::get_export`, then `Extern::into_func`: the function of that name exported by the
/// calling instance, if there is one. It belongs to the caller's store. The lookup writes
/// no byte of any memory.
#[verifier::external_body]
pub(crate) fn caller_func(caller: &mut wasmtime::Caller<JavaState>, name: &str) -> (func: Option<
    wasmtime::Func,
>)
    ensures
        same_caller(old(caller), final(caller)),
        same_caller_memories(old(caller), final(caller)),
        func is Some <==> caller_exports_func(old(caller), name@),
        func matches Some(f) ==> func_owner(&f) == caller_store(old(caller)),
{
    caller.get_export(name).and_then(wasmtime::Extern::into_func)
}

/// `AsContextMut::as_context_mut` on a caller: the context of the store the caller runs in,
/// with its memories as they are. Whatever is done through the context, the caller stays
/// in that store and its instance exports what it did.
#[verifier::external_body]
pub(crate) fn caller_context<'a, 'b>(caller: &'a mut wasmtime::Caller<'b, JavaState>) -> (store:
    wasmtime::StoreContextMut<'a, JavaState>)
    ensures
        store_id(&store) == caller_store(old(caller)),
        runs_async(&store) == caller_runs_async(old(caller)),
        forall|memory: wasmtime::Memory| #[trigger]
            linear_memory(&store, &memory) == caller_linear_memory(old(caller), &memory),
        same_caller(old(caller), final(caller)),
{
    wasmtime::AsContextMut::as_context_mut(caller)
}

/// `Memory::data`: the memory as a slice, as the store holds it now.
#[verifier::external_body]
pub(crate) fn memory_data<'a, 'b>(
    memory: &wasmtime::Memory,
    store: &'a wasmtime::StoreContextMut<'b, JavaState>,
) -> (data: &'a [u8])
    requires
        memory_owner(memory) == store_id(store),
    ensures
        data@ == linear_memory(store, memory),
{
    memory.data(store)
}

/// `Memory::data_mut`: the memory as a mutable slice, for as long as the store stays
/// borrowed. What the slice holds when the borrow ends is what the memory holds then.
#[verifier::external_body]
pub(crate) fn memory_data_mut<'a, 'b>(
    memory: &wasmtime::Memory,
    store: &'a mut wasmtime::StoreContextMut<'b, JavaState>,
) -> (data: &'a mut [u8])
    requires
        memory_owner(memory) == store_id(old(store)),
    ensures
        data@ == linear_memory(old(store), memory),
        final(data)@.len() == data@.len(),
        linear_memory(final(store), memory) == final(data)@,
        same_store(old(store), final(store)),
{
    memory.data_mut(store)
}

/// A variant of `wasmtime::Val` for a plain value: the numeric slot of the same number, and
/// the null external reference for `Ref`.
#[verifier::external_body]
pub(crate) fn engine_val(val: &SlotValue) -> (engine: wasmtime::Val)
    ensures
        slot_of(&engine) == *val,
{
    match *val {
        SlotValue::I32(v) => wasmtime::Val::I32(v),
        SlotValue::I64(v) => wasmtime::Val::I64(v),
        SlotValue::F32(v) => wasmtime::Val::F32(v),
        SlotValue::F64(v) => wasmtime::Val::F64(v),
        SlotValue::V128(v) => wasmtime::Val::V128(v.into()),
        SlotValue::Ref => wasmtime::Val::ExternRef(None),
    }
}

/// The variants of `wasmtime::Val` told apart: the plain value that the engine's value
/// stands for.
#[verifier::external_body]
pub(crate) fn plain_val(val: &wasmtime::Val) -> (plain: SlotValue)
    ensures
        plain == slot_of(val),
{
    match *val {
        wasmtime::Val::I32(v) => SlotValue::I32(v),
        wasmtime::Val::I64(v) => SlotValue::I64(v),
        wasmtime::Val::F32(v) => SlotValue::F32(v),
        wasmtime::Val::F64(v) => SlotValue::F64(v),
        wasmtime::Val::V128(v) => SlotValue::V128(v.as_u128()),
        wasmtime::Val::FuncRef(_) => SlotValue::Ref,
        wasmtime::Val::ExternRef(_) => SlotValue::Ref,
        wasmtime::Val::AnyRef(_) => SlotValue::Ref,
        wasmtime::Val::ExnRef(_) => SlotValue::Ref,
    }
}

/// A variant of `wasmtime::ValType` for a plain slot type: the numeric type of the same
/// name, and the type of external references for `Ref`.
#[verifier::external_body]
pub(crate) fn engine_ty(ty: &SlotType) -> (engine: wasmtime::ValType)
    ensures
        slot_ty_of(&engine) == *ty,
{
    match *ty {
        SlotType::I32 => wasmtime::ValType::I32,
        SlotType::I64 => wasmtime::ValType::I64,
        SlotType::F32 => wasmtime::ValType::F32,
        SlotType::F64 => wasmtime::ValType::F64,
        SlotType::V128 => wasmtime::ValType::V128,
        SlotType::Ref => wasmtime::ValType::EXTERNREF,
    }
}

/// `Func::ty`, then `FuncType::params` and `FuncType::results`: the slot types the function
/// was made with, every reference type as `Ref`.
#[verifier::external_body]
pub(crate) fn func_signature(
    func: &wasmtime::Func,
    store: &wasmtime::StoreContextMut<JavaState>,
) -> (ty: (Vec<SlotType>, Vec<SlotType>))
    requires
        func_owner(func) == store_id(store),
    ensures
        ty.0@ == func_ty(func).0,
        ty.1@ == func_ty(func).1,
{
    let plain = |ty: wasmtime::ValType| match ty {
        wasmtime::ValType::I32 => SlotType::I32,
        wasmtime::ValType::I64 => SlotType::I64,
        wasmtime::ValType::F32 => SlotType::F32,
        wasmtime::ValType::F64 => SlotType::F64,
        wasmtime::ValType::V128 => SlotType::V128,
        wasmtime::ValType::Ref(_) => SlotType::Ref,
    };
    let ty = func.ty(store);
    (ty.params().map(plain).collect(), ty.results().map(plain).collect())
}

/// `Func::ty` and `FuncType::results` for the number of results, then `Func::call` with a
/// buffer for that many: runs the function with `params` and hands back what it returned.
/// The engine holds the call against the type of the function before it runs anything: it
/// succeeds only where `params` are of the parameter types, and what comes back is of the
/// result types. Whatever the guest does to its memory is left open; an error is a trap, a
/// failure of a host function, or parameters that the function does not take. The function
/// has to return numbers only: the engine rebuilds each result from its type, and there
/// are types for which it has no value to give. A guest that does not come back keeps the
/// call from returning.
#[verifier::external_body]
pub(crate) fn func_call(
    func: &wasmtime::Func,
    store: &mut wasmtime::StoreContextMut<JavaState>,
    params: &Vec<wasmtime::Val>,
) -> (returned: Result<Vec<wasmtime::Val>, anyhow::Error>)
    requires
        callable(old(store), func),
        scalar_results(func),
    ensures
        same_store(old(store), final(store)),
        returned is Ok ==> engine_tys(params@) == func_ty(func).0,
        returned matches Ok(vals) ==> engine_tys(vals@) == func_ty(func).1,
{
    let results = func.ty(&*store).results().len();
    let mut out = vec![wasmtime::Val::ExternRef(None); results];
    func.call(store, params, &mut out)?;
    Ok(out)
}

/// `Engine::is_async` on the engine of a store: whether the store was configured for
/// asynchronous calls.
#[verifier::external_body]
pub(crate) fn store_is_async(store: &wasmtime::StoreContextMut<JavaState>) -> (is_async: bool)
    ensures
        is_async == runs_async(store),
{
    store.engine().is_async()
}

/// `Engine::is_async` on the engine of a caller: whether the store the caller runs in was
/// configured for asynchronous calls.
#[verifier::external_body]
pub(crate) fn caller_is_async(caller: &wasmtime::Caller<JavaState>) -> (is_async: bool)
    ensures
        is_async == caller_runs_async(caller),
{
    caller.engine().is_async()
}

/// `anyhow::Error` rendered with its chain of causes. Nothing is claimed of the text.
#[verifier::external_body]
pub(crate) fn error_text(error: &anyhow::Error) -> String {
    format!("{:?}", error)
}

} // verus!
