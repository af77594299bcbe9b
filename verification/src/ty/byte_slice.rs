//! Byte ranges in call slots: a value that lives in guest memory crosses the boundary as
//! the descriptor of its range.

use vstd::prelude::*;
use crate::error::{BridgeError, SignatureMismatch};
use crate::exports::WasmSlice;
use crate::ty::complex_ty::{
    expect_nothing, expect_ty, lemma_first_mismatch, lemma_first_mismatch_concat, scalar_taken,
    spec_take_scalar, take_scalar, Abi, ReturnAbi,
};
use crate::ty::wasm_alloc::{WasmAlloc, WasmSliceWrapper};
use crate::val::{SlotType, SlotValue, Slots};
use crate::wasm_state::JavaState;

verus! {

/// Bytes that cross the boundary as a range of guest memory.
#[derive(Debug)]
pub struct ByteSlice(pub Vec<u8>);

impl ByteSlice {
    /// The bytes.
    pub fn deref(&self) -> (bytes: &[u8])
        ensures
            bytes@ == self.0@,
    {
        self.0.as_slice()
    }

    /// Bytes fit every store: what ties them to one is the descriptor they are read through.
    pub fn compatible_with_store(
        &self,
        _store: &wasmtime::StoreContextMut<JavaState>,
    ) -> (compatible: bool)
        ensures
            compatible,
    {
        true
    }
}

impl Abi for WasmSlice {
    open spec fn arg_tys() -> Seq<SlotType> {
        seq![SlotType::I32, SlotType::I32]
    }

    open spec fn to_args(self) -> Seq<SlotValue> {
        seq![SlotValue::I32(self.ptr), SlotValue::I32(self.len)]
    }

    open spec fn from_args(args: Seq<SlotValue>) -> Result<Self, BridgeError> {
        match spec_take_scalar(SlotType::I32, args) {
            Err(e) => Err(e),
            Ok(ptr) => match spec_take_scalar(SlotType::I32, args.skip(1)) {
                Err(e) => Err(e),
                Ok(len) => Ok(WasmSlice { ptr: ptr->I32_0, len: len->I32_0 }),
            },
        }
    }

    open spec fn args_taken(args: Seq<SlotValue>) -> nat {
        if spec_take_scalar(SlotType::I32, args) is Err {
            scalar_taken(args)
        } else {
            1 + scalar_taken(args.skip(1))
        }
    }

    proof fn lemma_args_roundtrip(self, rest: Seq<SlotValue>) {
    }

    fn push_arg_tys(args: &mut Vec<SlotType>) {
        args.push(SlotType::I32);  // offset into memory
        args.push(SlotType::I32);  // length
    }

    fn store_to_args(self, args: &mut Vec<SlotValue>) {
        let WasmSlice { ptr, len } = self;
        args.push(SlotValue::I32(ptr));
        args.push(SlotValue::I32(len));
    }

    fn load_from_args(args: &mut Slots<SlotValue>) -> (loaded: Result<Self, BridgeError>) {
        let ptr = match take_scalar(SlotType::I32, args)? {
            SlotValue::I32(ptr) => ptr,
            other => {
                return Err(
                    BridgeError::IncorrectArgument { expected: SlotType::I32, found: other },
                );
            },
        };
        let len = match take_scalar(SlotType::I32, args)? {
            SlotValue::I32(len) => len,
            other => {
                return Err(
                    BridgeError::IncorrectArgument { expected: SlotType::I32, found: other },
                );
            },
        };
        Ok(WasmSlice { ptr, len })
    }

    fn matches_arg_tys(tys: &mut Slots<SlotType>) -> (matched: Result<(), SignatureMismatch>) {
        proof {
            let one = seq![SlotType::I32];
            assert(one + one =~= Self::arg_tys());
            lemma_first_mismatch_concat(one, one, old(tys).rest());
            lemma_first_mismatch(one, old(tys).rest());
        }
        // offset
        expect_ty(SlotType::I32, tys)?;
        // length
        let matched = expect_ty(SlotType::I32, tys);
        proof {
            lemma_first_mismatch(seq![SlotType::I32], old(tys).rest().skip(1));
        }
        matched
    }
}

impl ReturnAbi for WasmSlice {
    open spec fn return_ty() -> Option<SlotType> {
        None
    }

    open spec fn returned(
        ret: Option<SlotValue>,
        record: Option<Result<WasmSlice, BridgeError>>,
    ) -> Result<Self, BridgeError> {
        match record {
            None => Err(BridgeError::MissingReturnPointer),
            Some(slice) => slice,
        }
    }

    fn return_or_push_arg_tys(args: &mut Vec<SlotType>) -> (ret: Option<SlotType>) {
        // For slice returns, we need a pointer to the record in the final parameter position
        args.push(SlotType::I32);

        None
    }

    fn matches_return_or_arg_tys(ret: Option<SlotType>, arg_tys: &mut Slots<SlotType>) -> (matched:
        Result<(), BridgeError>) {
        // is a pointer type
        match expect_ty(SlotType::I32, arg_tys) {
            // and the result list is empty
            Ok(()) => expect_nothing(ret),
            Err(mismatch) => Err(BridgeError::SignatureMismatch(mismatch)),
        }
    }

    fn get_return_by_ref_arg(args: &mut Slots<SlotValue>) -> (ptr: Option<i32>) {
        match args.next() {
            Some(val) => val.i32(),
            None => None,
        }
    }

    fn return_or_store_to_arg<'w>(
        args: &mut Vec<SlotValue>,
        wasm_alloc: Option<&'w WasmAlloc>,
        store: &mut wasmtime::StoreContextMut<JavaState>,
    ) -> (record: Result<Option<WasmSliceWrapper<'w>>, BridgeError>) {
        // create a place in memory for the slice to be returned
        let wasm_alloc = match wasm_alloc {
            Some(wasm_alloc) => wasm_alloc,
            None => {
                return Err(BridgeError::MissingAllocator);
            },
        };
        let slice = wasm_alloc.alloc_record(store)?;

        args.push(SlotValue::I32(slice.wasm_slice().ptr));
        Ok(Some(slice))
    }

    fn return_or_load_or_from_args(
        ret: Option<&SlotValue>,
        ret_by_ref_ptr: Option<&WasmSliceWrapper<'_>>,
        wasm_alloc: Option<&WasmAlloc>,
        store: &wasmtime::StoreContextMut<JavaState>,
    ) -> (loaded: Result<Self, BridgeError>) {
        let ptr = match ret_by_ref_ptr {
            Some(ptr) => ptr,
            None => {
                return Err(BridgeError::MissingReturnPointer);
            },
        };
        ptr.obj_as_mut(store)
    }
}

} // verus!
