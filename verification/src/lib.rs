//! Marshaling bridge between a managed host runtime and an embedded WebAssembly guest.
//!
//! Managed code calls functions that a guest module exports, and the guest calls back into
//! managed methods. A guest function takes and returns a handful of fixed-width numbers; the
//! managed side deals in boxed numbers, byte arrays, text and byte buffers. This crate is what
//! lies between: it lays values out in call slots, copies bytes into and out of the guest's
//! linear memory through the guest's own allocator, and keeps track of which side frees
//! which range.
//!
//! * [`val`]: call slots and their types.
//! * [`exports`]: the descriptor of a byte range in guest memory, and the names a guest
//!   exports for byte exchange.
//! * [`ty`]: how each kind of value is laid out in call slots, and the guest's allocator.
//! * [`wasm_value`]: the closed set of value kinds, and how a value of each kind crosses.
//! * [`wasm_function`]: the two call bridges.
//! * [`guest`]: the call into the guest, and whether a store can make one.
//! * [`error`]: what can go wrong, each failure with its message.
//! * [`wasm_exception`]: exceptions of managed callbacks, rendered for the guest.
//! * [`java`]: classes, objects and values of the managed runtime, as plain values.
//! * [`engine`]: what is taken on trust of the guest engine.
//!
//! The bridge never talks to the managed runtime itself. Its functions are verified: each
//! states in its contract what it returns and what it does to the guest's memory, for every
//! input it accepts, and none of them panics.

pub mod engine;
pub mod error;
pub mod exports;
pub mod guest;
pub mod java;
pub mod math;
pub mod text;
pub mod ty;
pub mod val;
pub mod wasm_exception;
pub mod wasm_function;
pub mod wasm_instance;
pub mod wasm_state;
pub mod wasm_value;
