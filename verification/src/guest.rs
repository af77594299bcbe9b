//! Calls into the guest.

use vstd::prelude::*;
use crate::engine::{
    callable, caller_is_async, caller_runs_async, engine_ty, engine_tys, engine_val, error_text,
    func_call, func_ty, plain_tys, plain_val, plain_vals, runs_async, same_store, scalar_results,
    slot_of, slot_ty_of, store_is_async,
};
use crate::error::BridgeError;
use crate::val::{slot_tys, SlotType, SlotValue};
use crate::wasm_state::JavaState;

verus! {

/// Whether the store was configured for asynchronous calls. Every call of this library is
/// a synchronous one, and is to be made only through a store that answers `false` here.
pub fn is_async(store: &wasmtime::StoreContextMut<JavaState>) -> (configured: bool)
    ensures
        configured == runs_async(store),
{
    store_is_async(store)
}

/// Whether the store that a host function was called from was configured for asynchronous
/// calls. The two halves of a callback are to be run only for a caller that answers `false`
/// here.
pub fn is_async_caller(caller: &wasmtime::Caller<JavaState>) -> (configured: bool)
    ensures
        configured == caller_runs_async(caller),
{
    caller_is_async(caller)
}

/// The slot values of the engine for plain values, one for each and in order.
pub fn to_engine(vals: &[SlotValue]) -> (engine: Vec<wasmtime::Val>)
    ensures
        plain_vals(engine@) == vals@,
{
    let mut engine: Vec<wasmtime::Val> = Vec::new();
    let mut i: usize = 0;
    while i < vals.len()
        invariant
            i <= vals@.len(),
            engine@.len() == i,
            forall|j: int| 0 <= j < i ==> slot_of(&#[trigger] engine@[j]) == vals@[j],
        decreases vals@.len() - i,
    {
        engine.push(engine_val(&vals[i]));
        i = i + 1;
    }
    proof {
        assert(plain_vals(engine@) =~= vals@);
    }
    engine
}

/// The plain values that slot values of the engine stand for, one for each and in order.
pub fn from_engine(vals: &[wasmtime::Val]) -> (plain: Vec<SlotValue>)
    ensures
        plain@ == plain_vals(vals@),
{
    let mut plain: Vec<SlotValue> = Vec::new();
    let mut i: usize = 0;
    while i < vals.len()
        invariant
            i <= vals@.len(),
            plain@.len() == i,
            forall|j: int| 0 <= j < i ==> (#[trigger] plain@[j]) == slot_of(&vals@[j]),
        decreases vals@.len() - i,
    {
        plain.push(plain_val(&vals[i]));
        i = i + 1;
    }
    proof {
        assert(plain@ =~= plain_vals(vals@));
    }
    plain
}

/// The slot types of the engine for plain slot types, one for each and in order.
pub fn engine_types(tys: &[SlotType]) -> (engine: Vec<wasmtime::ValType>)
    ensures
        plain_tys(engine@) == tys@,
{
    let mut engine: Vec<wasmtime::ValType> = Vec::new();
    let mut i: usize = 0;
    while i < tys.len()
        invariant
            i <= tys@.len(),
            engine@.len() == i,
            forall|j: int| 0 <= j < i ==> slot_ty_of(&#[trigger] engine@[j]) == tys@[j],
        decreases tys@.len() - i,
    {
        engine.push(engine_ty(&tys[i]));
        i = i + 1;
    }
    proof {
        assert(plain_tys(engine@) =~= tys@);
    }
    engine
}

/// Puts the value for the result slot of a host function where the engine looks for it:
/// into the first of `outputs`. Without a value, and for a function without a result,
/// nothing is put anywhere.
pub fn place_result(slot: Option<SlotValue>, outputs: &mut [wasmtime::Val])
    ensures
        final(outputs)@.len() == old(outputs)@.len(),
        slot is Some && old(outputs)@.len() > 0 ==> plain_vals(final(outputs)@) == plain_vals(
            old(outputs)@,
        ).update(0, slot->0),
        slot is None || old(outputs)@.len() == 0 ==> final(outputs)@ == old(outputs)@,
{
    match slot {
        Some(val) => {
            if outputs.len() > 0 {
                outputs[0] = engine_val(&val);
                proof {
                    assert(plain_vals(outputs@) =~= plain_vals(old(outputs)@).update(0, val));
                }
            }
        },
        None => {},
    }
}

/// Calls a guest function with the slot values `params`. The call comes back with values
/// only where `params` are of the function's parameter types, and the values are of its
/// result types, one for each. A trap of the guest, and every other failure of the call, is
/// a failure of this call only: the store stays usable. The function has to return numbers
/// only.
pub fn call_guest(
    func: &wasmtime::Func,
    store: &mut wasmtime::StoreContextMut<JavaState>,
    params: &[SlotValue],
) -> (returned: Result<Vec<SlotValue>, BridgeError>)
    requires
        callable(old(store), func),
        scalar_results(func),
    ensures
        same_store(old(store), final(store)),
        returned matches Ok(vals) ==> slot_tys(vals@) == func_ty(func).1 && slot_tys(params@)
            == func_ty(func).0,
        returned matches Err(e) ==> e is GuestTrap,
{
    let engine_params = to_engine(params);
    proof {
        assert(engine_tys(engine_params@) =~= slot_tys(plain_vals(engine_params@)));
    }
    match func_call(func, store, &engine_params) {
        Ok(out) => {
            let vals = from_engine(out.as_slice());
            proof {
                assert(slot_tys(vals@) =~= engine_tys(out@));
            }
            Ok(vals)
        },
        Err(trap) => Err(BridgeError::GuestTrap(error_text(&trap))),
    }
}

} // verus!
