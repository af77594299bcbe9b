//! Instances of guest modules.

use vstd::prelude::*;
use crate::engine::{
    exports_func, func_owner, instance_func, instance_owner, same_store, store_id,
};
use crate::wasm_state::JavaState;

verus! {

/// Looks up a function that an instance exports: there is one exactly where the instance
/// exports a function under that name. The function belongs to the store of the instance,
/// and it is called through that store.
pub fn get_function(
    instance: &wasmtime::Instance,
    store: &mut wasmtime::StoreContextMut<JavaState>,
    name: &str,
) -> (func: Option<wasmtime::Func>)
    requires
        instance_owner(instance) == store_id(old(store)),
    ensures
        same_store(old(store), final(store)),
        func is Some <==> exports_func(instance, name@),
        func matches Some(f) ==> func_owner(&f) == store_id(final(store)),
{
    instance_func(instance, store, name)
}

} // verus!
