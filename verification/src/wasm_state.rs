//! The data every guest store carries.

use vstd::prelude::*;

verus! {

/// `wasmtime_wasi::preview1::WasiP1Ctx`: what a guest sees of the operating system.
#[verifier::external_type_specification]
#[verifier::external_body]
pub struct ExWasiP1Ctx(wasmtime_wasi::preview1::WasiP1Ctx);

/// Store associated data: the guest's view of the operating system.
pub struct JavaState {
    wasi: wasmtime_wasi::preview1::WasiP1Ctx,
}

impl JavaState {
    /// The system-interface context the state holds.
    pub closed spec fn wasi(&self) -> wasmtime_wasi::preview1::WasiP1Ctx {
        self.wasi
    }

    /// State for a new store, around the system-interface context its guest is to see.
    /// Whoever makes the context decides what the guest shares with the host, and answers
    /// for what making it can fail on.
    pub fn new(wasi: wasmtime_wasi::preview1::WasiP1Ctx) -> (state: JavaState)
        ensures
            state.wasi() == wasi,
    {
        JavaState { wasi }
    }

    /// The system-interface context, for linking the guest's operating-system imports. What
    /// is done to the context through the reference is done to the state.
    pub fn wasi_mut(&mut self) -> (wasi: &mut wasmtime_wasi::preview1::WasiP1Ctx)
        ensures
            *wasi == old(self).wasi(),
            final(self).wasi() == *final(wasi),
    {
        &mut self.wasi
    }
}

} // verus!
