//! How values are laid out in call slots and in guest memory.

pub mod byte_slice;
pub mod complex_ty;
pub mod wasm_alloc;

pub use byte_slice::ByteSlice;
pub use complex_ty::{Abi, ReturnAbi, F32, F64};
pub use wasm_alloc::{WasmAlloc, WasmSliceWrapper};
