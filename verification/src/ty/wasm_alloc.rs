//! The guest's allocator, driven from the host.

use vstd::prelude::*;
use vstd::slice::{slice_subrange, slice_to_vec};
use crate::engine::{
    caller_exports_func, caller_exports_memory, caller_func, caller_memory, caller_store,
    exports_func, exports_memory, func_owner, func_signature, func_ty, instance_func,
    instance_memory, instance_owner, linear_memory, memory_data, memory_data_mut, memory_owner,
    overwritten, runs_async, same_caller, same_caller_memories, same_memories, same_store,
    store_id,
};
use crate::error::{AllocationFailure, BridgeError};
use crate::exports::{
    signed, to_signed, to_unsigned, WasmSlice, ALLOC_EXPORT, DEALLOC_EXPORT, MEMORY_EXPORT,
};
use crate::ty::complex_ty::{release, reports_added, Abi};
use crate::guest::call_guest;
use crate::val::{slot_tys, SlotType, SlotValue};
use crate::wasm_state::JavaState;

verus! {

/// Size in bytes of the record that carries a descriptor through guest memory: the offset,
/// then the length, each a little-endian 32-bit integer.
pub const RECORD_SIZE: u32 = 8;

/// Allocator that can allocate and deallocate in a guest module.
///
/// It holds the guest's exported `memory` and its exported `__alloc_bytes` and
/// `__dealloc_bytes` routines, and nothing else: every access asks the store for the memory
/// as it is at that moment.
pub struct WasmAlloc {
    memory: wasmtime::Memory,
    alloc: wasmtime::Func,
    dealloc: wasmtime::Func,
}

/// The descriptor of the record at guest offset `ptr`.
pub open spec fn record_at(ptr: i32) -> WasmSlice {
    WasmSlice { ptr, len: signed(RECORD_SIZE) }
}

/// Whether an instance exports what the exchange of bytes takes: a memory, an allocation
/// routine and a deallocation routine, each under its agreed name.
pub open spec fn exchanges_bytes(instance: &wasmtime::Instance) -> bool {
    &&& exports_memory(instance, MEMORY_EXPORT@)
    &&& exports_func(instance, ALLOC_EXPORT@)
    &&& exports_func(instance, DEALLOC_EXPORT@)
}

/// Whether the instance that called a host function exports what the exchange of bytes
/// takes: a memory, an allocation routine and a deallocation routine, each under its agreed
/// name.
pub open spec fn caller_exchanges_bytes(caller: &wasmtime::Caller<JavaState>) -> bool {
    &&& caller_exports_memory(caller, MEMORY_EXPORT@)
    &&& caller_exports_func(caller, ALLOC_EXPORT@)
    &&& caller_exports_func(caller, DEALLOC_EXPORT@)
}

/// The failure to reach a range that does not lie inside a memory of `memory` bytes.
pub open spec fn out_of_bounds(slice: WasmSlice, memory: nat) -> BridgeError {
    BridgeError::AllocationFailure(
        AllocationFailure::OutOfBounds {
            offset: slice.spec_offset() as u32,
            length: slice.spec_length() as u32,
            memory: memory as usize,
        },
    )
}

/// Whether `e` is what an allocation of `size` bytes fails with, through a routine that is
/// of the agreed type or not: a size that a 32-bit length cannot say, or else a routine of
/// another type, or else what the guest decides, which is a trap of its routine or the
/// answer 0.
pub open spec fn spec_size_failure(agreed: bool, size: nat, e: BridgeError) -> bool {
    if size > u32::MAX {
        e == BridgeError::AllocationFailure(AllocationFailure::TooLarge { bytes: size as usize })
    } else if !agreed {
        e == BridgeError::AllocationFailure(AllocationFailure::NotAnOffset)
    } else {
        e is GuestTrap || e == BridgeError::AllocationFailure(
            AllocationFailure::OutOfMemory { size: size as u32 },
        )
    }
}

/// Whether `e` is what allocating and filling a range of `size` bytes fails with: what the
/// allocation fails with, or a range that the guest handed out and that does not lie inside
/// its memory.
pub open spec fn spec_fill_failure(agreed: bool, size: nat, e: BridgeError) -> bool {
    ||| spec_size_failure(agreed, size, e)
    ||| size <= u32::MAX && agreed && (e matches BridgeError::AllocationFailure(
        AllocationFailure::OutOfBounds { offset, length, memory },
    ) && offset != 0 && length == size)
}

/// Whether `e` is what copying `size` bytes into a fresh range fails with, for a memory of
/// `memory` bytes: a memory no longer than the bytes, in which case the guest is not asked,
/// or else what allocating and filling fails with.
pub open spec fn spec_copy_failure(memory: nat, agreed: bool, size: nat, e: BridgeError) -> bool {
    if memory <= size {
        e == BridgeError::AllocationFailure(
            AllocationFailure::OutOfBounds {
                offset: 0,
                length: if size <= u32::MAX {
                    size as u32
                } else {
                    u32::MAX
                },
                memory: memory as usize,
            },
        )
    } else {
        spec_fill_failure(agreed, size, e)
    }
}

/// What an answer of the guest's allocation routine means for a request of `size` bytes.
pub open spec fn spec_allocated(size: u32, answer: Seq<SlotValue>) -> Result<
    WasmSlice,
    AllocationFailure,
> {
    if answer.len() > 0 && answer[0] is I32 {
        if answer[0]->I32_0 == 0 {
            Err(AllocationFailure::OutOfMemory { size })
        } else {
            Ok(WasmSlice { ptr: answer[0]->I32_0, len: signed(size) })
        }
    } else {
        Err(AllocationFailure::NotAnOffset)
    }
}

/// What an answer of the guest's allocation routine means for a request of `size` bytes: a
/// descriptor of that many bytes at the offset it names, out of memory for the offset 0, and
/// a failure for anything but a 32-bit integer.
pub fn allocated(size: u32, answer: &[SlotValue]) -> (slice: Result<WasmSlice, AllocationFailure>)
    ensures
        slice == spec_allocated(size, answer@),
{
    if answer.len() == 0 {
        return Err(AllocationFailure::NotAnOffset);
    }
    match answer[0].i32() {
        Some(ptr) => {
            if ptr == 0 {
                Err(AllocationFailure::OutOfMemory { size })
            } else {
                Ok(WasmSlice::new(ptr, to_signed(size)))
            }
        },
        None => Err(AllocationFailure::NotAnOffset),
    }
}

/// The slots handed to the guest's allocation routine for a request of `size` bytes: the
/// size, in one 32-bit slot.
pub fn alloc_request(size: u32) -> (params: Vec<SlotValue>)
    ensures
        params@ == seq![SlotValue::I32(signed(size))],
{
    let mut params: Vec<SlotValue> = Vec::new();
    params.push(SlotValue::I32(to_signed(size)));
    proof {
        assert(params@ =~= seq![SlotValue::I32(signed(size))]);
    }
    params
}

/// The slots handed to the guest's deallocation routine for a range: its offset, then its
/// length, each in a 32-bit slot.
pub fn dealloc_request(slice: WasmSlice) -> (params: Vec<SlotValue>)
    ensures
        params@ == slice.to_args(),
{
    let mut params: Vec<SlotValue> = Vec::new();
    params.push(SlotValue::I32(slice.ptr));
    params.push(SlotValue::I32(slice.len));
    proof {
        assert(params@ =~= slice.to_args());
    }
    params
}

/// Whether a list of slot types is exactly as many 32-bit integers.
pub open spec fn spec_all_i32(tys: Seq<SlotType>, count: nat) -> bool {
    tys.len() == count && forall|i: int| 0 <= i < tys.len() ==> #[trigger] tys[i] is I32
}

/// Whether a list of slot types is exactly as many 32-bit integers.
pub fn all_i32(tys: &[SlotType], count: usize) -> (all: bool)
    ensures
        all == spec_all_i32(tys@, count as nat),
{
    if tys.len() != count {
        return false;
    }
    let mut i: usize = 0;
    while i < tys.len()
        invariant
            i <= tys@.len(),
            forall|k: int| 0 <= k < i ==> #[trigger] tys@[k] is I32,
        decreases tys@.len() - i,
    {
        match tys[i] {
            SlotType::I32 => {},
            _ => {
                return false;
            },
        }
        i = i + 1;
    }
    true
}

impl WasmAlloc {
    /// The three exports the allocator holds: the memory, the allocation routine and the
    /// deallocation routine.
    pub closed spec fn exports(&self) -> (wasmtime::Memory, wasmtime::Func, wasmtime::Func) {
        (self.memory, self.alloc, self.dealloc)
    }

    /// Whether the store of that identity owns the memory and both routines.
    pub open spec fn owned_by(&self, id: int) -> bool {
        &&& memory_owner(&self.exports().0) == id
        &&& func_owner(&self.exports().1) == id
        &&& func_owner(&self.exports().2) == id
    }

    /// Whether the allocation routine is of the agreed type: it takes a size in a 32-bit
    /// slot and returns an offset in one.
    pub open spec fn allocates_by_size(&self) -> bool {
        &&& spec_all_i32(func_ty(&self.exports().1).0, 1)
        &&& spec_all_i32(func_ty(&self.exports().1).1, 1)
    }

    /// Whether the deallocation routine is of the agreed type: it takes an offset and a
    /// length, each in a 32-bit slot, and returns nothing.
    pub open spec fn frees_by_offset_and_length(&self) -> bool {
        &&& spec_all_i32(func_ty(&self.exports().2).0, 2)
        &&& spec_all_i32(func_ty(&self.exports().2).1, 0)
    }

    /// Whether `e` is what an allocation of `size` bytes fails with, as
    /// [`spec_size_failure`] says for the allocation routine of this allocator.
    pub open spec fn size_failure(&self, size: nat, e: BridgeError) -> bool {
        spec_size_failure(self.allocates_by_size(), size, e)
    }

    /// Whether `e` is what allocating and filling a range of `size` bytes fails with, as
    /// [`spec_fill_failure`] says for the allocation routine of this allocator.
    pub open spec fn fill_failure(&self, size: nat, e: BridgeError) -> bool {
        spec_fill_failure(self.allocates_by_size(), size, e)
    }

    /// Whether `e` is what copying `size` bytes into a fresh range fails with, as
    /// [`spec_copy_failure`] says for the allocation routine of this allocator and the
    /// memory as `store` holds it.
    pub open spec fn copy_failure(
        &self,
        store: &wasmtime::StoreContextMut<JavaState>,
        size: nat,
        e: BridgeError,
    ) -> bool {
        spec_copy_failure(self.image(store).len(), self.allocates_by_size(), size, e)
    }

    /// Whether the allocator can be used through `store`: the store owns its three exports
    /// and runs synchronously.
    pub open spec fn bound_to(&self, store: &wasmtime::StoreContextMut<JavaState>) -> bool {
        self.owned_by(store_id(store)) && !runs_async(store)
    }

    /// The guest's memory as `store` holds it now.
    pub open spec fn image(&self, store: &wasmtime::StoreContextMut<JavaState>) -> Seq<u8> {
        linear_memory(store, &self.exports().0)
    }

    /// The bytes a descriptor covers at this moment, or `None` when it reaches outside the
    /// memory.
    pub open spec fn bytes_at(
        &self,
        store: &wasmtime::StoreContextMut<JavaState>,
        slice: WasmSlice,
    ) -> Option<Seq<u8>> {
        if slice.fits(self.image(store).len()) {
            Some(slice.bytes_in(self.image(store)))
        } else {
            None
        }
    }

    /// What reading a descriptor's range gives at this moment: its bytes, or the bounds it
    /// breaks.
    pub open spec fn spec_read(
        &self,
        store: &wasmtime::StoreContextMut<JavaState>,
        slice: WasmSlice,
    ) -> Result<Seq<u8>, BridgeError> {
        match self.bytes_at(store, slice) {
            Some(bytes) => Ok(bytes),
            None => Err(
                BridgeError::AllocationFailure(
                    AllocationFailure::OutOfBounds {
                        offset: slice.spec_offset() as u32,
                        length: slice.spec_length() as u32,
                        memory: self.image(store).len() as usize,
                    },
                ),
            ),
        }
    }

    /// The descriptor that the record at guest offset `ptr` carries at this moment.
    pub open spec fn spec_obj(
        &self,
        store: &wasmtime::StoreContextMut<JavaState>,
        ptr: i32,
    ) -> Result<WasmSlice, BridgeError> {
        match self.spec_read(store, record_at(ptr)) {
            Ok(record) => Ok(WasmSlice::spec_from_record(record)),
            Err(e) => Err(e),
        }
    }

    /// The allocator of the module that called into the host, if the module exports all
    /// three of memory, allocation and deallocation routine.
    pub fn from_caller(caller: &mut wasmtime::Caller<JavaState>) -> (alloc: Option<Self>)
        ensures
            same_caller(old(caller), final(caller)),
            same_caller_memories(old(caller), final(caller)),
            alloc is Some <==> caller_exchanges_bytes(old(caller)),
            alloc matches Some(a) ==> a.owned_by(caller_store(old(caller))),
    {
        let memory = caller_memory(caller, MEMORY_EXPORT);
        let alloc = caller_func(caller, ALLOC_EXPORT);
        let dealloc = caller_func(caller, DEALLOC_EXPORT);

        Self::from(memory, alloc, dealloc)
    }

    /// The allocator of an instance, if its module exports all three of memory, allocation
    /// and deallocation routine.
    pub fn from_instance(
        instance: &wasmtime::Instance,
        store: &mut wasmtime::StoreContextMut<JavaState>,
    ) -> (alloc: Option<Self>)
        requires
            instance_owner(instance) == store_id(old(store)),
        ensures
            same_store(old(store), final(store)),
            same_memories(old(store), final(store)),
            alloc is Some <==> exchanges_bytes(instance),
            alloc matches Some(a) ==> a.owned_by(store_id(old(store))),
    {
        let memory = instance_memory(instance, store, MEMORY_EXPORT);
        let alloc = instance_func(instance, store, ALLOC_EXPORT);
        let dealloc = instance_func(instance, store, DEALLOC_EXPORT);

        Self::from(memory, alloc, dealloc)
    }

    /// An allocator over the three exports, or `None` where one of them is absent.
    pub fn from(
        memory: Option<wasmtime::Memory>,
        alloc: Option<wasmtime::Func>,
        dealloc: Option<wasmtime::Func>,
    ) -> (this: Option<Self>)
        ensures
            this is Some <==> memory is Some && alloc is Some && dealloc is Some,
            this matches Some(a) ==> a.exports() == (memory->0, alloc->0, dealloc->0),
    {
        match (memory, alloc, dealloc) {
            (Some(memory), Some(alloc), Some(dealloc)) => Some(Self { memory, alloc, dealloc }),
            _ => None,
        }
    }

    /// The byte length of the guest's memory at this moment.
    pub fn memory_len(&self, store: &wasmtime::StoreContextMut<JavaState>) -> (len: usize)
        requires
            self.bound_to(store),
        ensures
            len == self.image(store).len(),
    {
        memory_data(&self.memory, store).len()
    }

    /// The bytes a descriptor covers, copied out. The bounds are those of the memory at this
    /// moment; a range that reaches outside is an error and nothing is read.
    pub fn read(
        &self,
        wasm_slice: WasmSlice,
        store: &wasmtime::StoreContextMut<JavaState>,
    ) -> (bytes: Result<Vec<u8>, BridgeError>)
        requires
            self.bound_to(store),
        ensures
            self.spec_read(store, wasm_slice) matches Ok(b) ==> (bytes matches Ok(v) && v@ == b),
            self.spec_read(store, wasm_slice) matches Err(e) ==> bytes == Err::<
                Vec<u8>,
                BridgeError,
            >(e),
    {
        let offset = wasm_slice.offset();
        let length = wasm_slice.length();
        let data = memory_data(&self.memory, store);
        let memory = data.len();
        if offset as usize <= memory && length as usize <= memory - offset as usize {
            let range = slice_subrange(data, offset as usize, offset as usize + length as usize);
            Ok(slice_to_vec(range))
        } else {
            Err(
                BridgeError::AllocationFailure(
                    AllocationFailure::OutOfBounds { offset, length, memory },
                ),
            )
        }
    }

    /// The bytes a descriptor covers, as a view into the guest's memory that lasts as long
    /// as the store stays borrowed. The bounds are those of the memory at this moment; a
    /// range that reaches outside is an error, and never a shorter view.
    pub fn as_mut<'a>(
        &self,
        wasm_slice: WasmSlice,
        store: &'a mut wasmtime::StoreContextMut<'_, JavaState>,
    ) -> (view: Result<&'a mut [u8], BridgeError>)
        requires
            self.bound_to(old(store)),
        ensures
            same_store(old(store), final(store)),
            self.spec_read(old(store), wasm_slice) matches Ok(b) ==> (view matches Ok(v) && v@ == b
                && final(v)@.len() == b.len() && self.image(final(store)) == overwritten(
                self.image(old(store)),
                wasm_slice.spec_offset() as int,
                final(v)@,
            )),
            self.spec_read(old(store), wasm_slice) matches Err(e) ==> (view matches Err(f) && f == e
                && self.image(final(store)) == self.image(old(store))),
    {
        let offset = wasm_slice.offset();
        let length = wasm_slice.length();
        let memory = self.memory_len(store);
        if !(offset as usize <= memory && length as usize <= memory - offset as usize) {
            return Err(
                BridgeError::AllocationFailure(
                    AllocationFailure::OutOfBounds { offset, length, memory },
                ),
            );
        }
        let data = memory_data_mut(&self.memory, store);
        let (_, tail) = data.split_at_mut(offset as usize);
        let (range, _) = tail.split_at_mut(length as usize);
        Ok(range)
    }

    /// Allocates `size` bytes in the guest and returns the descriptor of the range, which is
    /// the host's to free. The offset 0 is the guest's way to say that it is out of memory.
    /// A routine that does not take a size and return an offset, each in a 32-bit slot,
    /// cannot allocate and is not called.
    pub fn alloc_size(
        &self,
        size: usize,
        store: &mut wasmtime::StoreContextMut<JavaState>,
    ) -> (allocation: Result<WasmSliceWrapper<'_>, BridgeError>)
        requires
            self.bound_to(old(store)),
        ensures
            same_store(old(store), final(store)),
            size > u32::MAX || !self.allocates_by_size() ==> allocation is Err && *final(store)
                == *old(store),
            allocation matches Ok(w) ==> w.allocator() == self && w.spec_wasm_slice().spec_length()
                == size && w.spec_wasm_slice().ptr != 0,
            allocation matches Err(e) ==> self.size_failure(size as nat, e),
    {
        if size > u32::MAX as usize {
            return Err(BridgeError::AllocationFailure(AllocationFailure::TooLarge { bytes: size }));
        }
        let size = size as u32;
        let (takes, gives) = func_signature(&self.alloc, store);
        if !(all_i32(takes.as_slice(), 1) && all_i32(gives.as_slice(), 1)) {
            return Err(BridgeError::AllocationFailure(AllocationFailure::NotAnOffset));
        }
        let params = alloc_request(size);
        match call_guest(&self.alloc, store, params.as_slice()) {
            Ok(answer) => {
                proof {
                    assert(slot_tys(answer@)[0] is I32);
                    assert(answer@[0] is I32);
                }
                match allocated(size, answer.as_slice()) {
                    Ok(wasm_slice) => Ok(WasmSliceWrapper::new(self, wasm_slice)),
                    Err(failure) => Err(BridgeError::AllocationFailure(failure)),
                }
            },
            Err(trap) => Err(trap),
        }
    }

    /// Allocates a range in the guest and copies `src` into it. After success the range reads
    /// back as `src`. Where the memory is no longer than `src`, the guest is not asked. A
    /// range that the guest hands out and that does not lie inside its memory is a failure
    /// and no allocation: nothing is written, and nothing is handed back.
    pub fn alloc_bytes(
        &self,
        src: &[u8],
        store: &mut wasmtime::StoreContextMut<JavaState>,
    ) -> (allocation: Result<WasmSliceWrapper<'_>, BridgeError>)
        requires
            self.bound_to(old(store)),
        ensures
            same_store(old(store), final(store)),
            allocation matches Ok(w) ==> w.allocator() == self && w.spec_wasm_slice().spec_length()
                == src@.len() && w.spec_wasm_slice().ptr != 0 && self.bytes_at(
                final(store),
                w.spec_wasm_slice(),
            ) == Some(src@),
            self.image(old(store)).len() <= src@.len() || src@.len() > u32::MAX
                || !self.allocates_by_size() ==> allocation is Err && *old(store) == *final(store),
            allocation matches Err(e) ==> self.copy_failure(old(store), src@.len(), e),
    {
        let memory = self.memory_len(store);
        if memory <= src.len() {
            let length: u32 = if src.len() <= u32::MAX as usize {
                src.len() as u32
            } else {
                u32::MAX
            };
            return Err(
                BridgeError::AllocationFailure(
                    AllocationFailure::OutOfBounds { offset: 0, length, memory },
                ),
            );
        }
        // get target memory location and then copy into it
        let wasm_slice = match self.alloc_size(src.len(), store) {
            Ok(wasm_slice) => wasm_slice,
            Err(e) => {
                return Err(e);
            },
        };
        let offset = wasm_slice.wasm_slice().offset();
        match self.write(offset, src, store) {
            Ok(()) => Ok(wasm_slice),
            Err(e) => Err(e),
        }
    }

    /// Hands a range back to the guest's deallocation routine: the routine is called with
    /// the offset and the length of the range, each in a 32-bit slot, and no result is
    /// taken from it. A routine of another type cannot free and is not called; every
    /// failure of the call is a trap.
    pub fn dealloc_bytes(
        &self,
        slice: WasmSlice,
        store: &mut wasmtime::StoreContextMut<JavaState>,
    ) -> (freed: Result<(), BridgeError>)
        requires
            self.bound_to(old(store)),
        ensures
            same_store(old(store), final(store)),
            freed == Err::<(), BridgeError>(
                BridgeError::AllocationFailure(AllocationFailure::CannotFree),
            ) <==> !self.frees_by_offset_and_length(),
            !self.frees_by_offset_and_length() ==> *final(store) == *old(store),
            freed matches Err(e) ==> e is GuestTrap || e == BridgeError::AllocationFailure(
                AllocationFailure::CannotFree,
            ),
    {
        let (takes, gives) = func_signature(&self.dealloc, store);
        if !(all_i32(takes.as_slice(), 2) && all_i32(gives.as_slice(), 0)) {
            return Err(BridgeError::AllocationFailure(AllocationFailure::CannotFree));
        }
        let params = dealloc_request(slice);
        match call_guest(&self.dealloc, store, params.as_slice()) {
            Ok(_) => Ok(()),
            Err(trap) => Err(trap),
        }
    }

    /// Allocates a zeroed descriptor record in the guest, for a value that returns by
    /// reference.
    pub fn alloc_record(
        &self,
        store: &mut wasmtime::StoreContextMut<JavaState>,
    ) -> (allocation: Result<WasmSliceWrapper<'_>, BridgeError>)
        requires
            self.bound_to(old(store)),
        ensures
            same_store(old(store), final(store)),
            allocation matches Ok(w) ==> w.allocator() == self && w.spec_wasm_slice().spec_length()
                == RECORD_SIZE && w.spec_wasm_slice().ptr != 0 && self.bytes_at(
                final(store),
                w.spec_wasm_slice(),
            ) == Some(seq![0u8, 0u8, 0u8, 0u8, 0u8, 0u8, 0u8, 0u8]),
            !self.allocates_by_size() ==> allocation is Err && *final(store) == *old(store),
            allocation matches Err(e) ==> self.fill_failure(RECORD_SIZE as nat, e),
    {
        let wasm_slice = match self.alloc_size(RECORD_SIZE as usize, store) {
            Ok(wasm_slice) => wasm_slice,
            Err(e) => {
                return Err(e);
            },
        };
        // zero out the memory...
        let zeros: [u8; 8] = [0u8; 8];
        let offset = wasm_slice.wasm_slice().offset();
        match self.write(offset, zeros.as_slice(), store) {
            Ok(()) => Ok(wasm_slice),
            Err(e) => Err(e),
        }
    }

    /// The descriptor that the record at guest offset `ptr` carries at this moment.
    pub fn obj_as_mut(&self, ptr: i32, store: &wasmtime::StoreContextMut<JavaState>) -> (slice:
        Result<WasmSlice, BridgeError>)
        requires
            self.bound_to(store),
        ensures
            slice == self.spec_obj(store, ptr),
    {
        let record = self.read(WasmSlice::new(ptr, to_signed(RECORD_SIZE)), store)?;
        Ok(WasmSlice::from_record(record.as_slice()))
    }

    /// Writes a descriptor into the record at guest offset `ptr`, where the guest will look
    /// for a value returned by reference.
    pub fn store_obj(
        &self,
        ptr: i32,
        slice: WasmSlice,
        store: &mut wasmtime::StoreContextMut<JavaState>,
    ) -> (stored: Result<(), BridgeError>)
        requires
            self.bound_to(old(store)),
        ensures
            same_store(old(store), final(store)),
            stored is Ok <==> record_at(ptr).fits(self.image(old(store)).len()),
            stored is Ok ==> self.bytes_at(final(store), record_at(ptr)) == Some(
                slice.spec_to_record(),
            ),
            stored is Ok ==> forall|other: WasmSlice|
                other.disjoint(record_at(ptr)) ==> #[trigger] self.bytes_at(final(store), other)
                    == self.bytes_at(old(store), other),
            stored matches Err(e) ==> e == out_of_bounds(
                record_at(ptr),
                self.image(old(store)).len(),
            ) && self.image(final(store)) == self.image(old(store)),
    {
        let record = slice.to_record();
        let offset = to_unsigned(ptr);
        match self.write(offset, record.as_slice(), store) {
            Ok(()) => Ok(()),
            Err(e) => Err(e),
        }
    }

    /// Hands the record at guest offset `ptr` back to the guest's deallocation routine, as
    /// [`WasmAlloc::dealloc_bytes`] does for the eight bytes of the record.
    pub fn dealloc(&self, ptr: i32, store: &mut wasmtime::StoreContextMut<JavaState>) -> (freed:
        Result<(), BridgeError>)
        requires
            self.bound_to(old(store)),
        ensures
            same_store(old(store), final(store)),
            freed == Err::<(), BridgeError>(
                BridgeError::AllocationFailure(AllocationFailure::CannotFree),
            ) <==> !self.frees_by_offset_and_length(),
            !self.frees_by_offset_and_length() ==> *final(store) == *old(store),
            freed matches Err(e) ==> e is GuestTrap || e == BridgeError::AllocationFailure(
                AllocationFailure::CannotFree,
            ),
    {
        self.dealloc_bytes(WasmSlice::new(ptr, to_signed(RECORD_SIZE)), store)
    }

    /// Copies `bytes` into guest memory at `offset`. The bounds are those of the memory at
    /// this moment; a range that reaches outside is an error and nothing is written.
    pub fn write(
        &self,
        offset: u32,
        bytes: &[u8],
        store: &mut wasmtime::StoreContextMut<JavaState>,
    ) -> (written: Result<(), BridgeError>)
        requires
            self.bound_to(old(store)),
        ensures
            same_store(old(store), final(store)),
            written is Ok <==> offset + bytes@.len() <= self.image(old(store)).len(),
            written is Ok ==> self.image(final(store)) == overwritten(
                self.image(old(store)),
                offset as int,
                bytes@,
            ),
            written is Err ==> self.image(final(store)) == self.image(old(store)) && written
                == Err::<(), BridgeError>(
                BridgeError::AllocationFailure(
                    AllocationFailure::OutOfBounds {
                        offset,
                        length: bytes@.len() as u32,
                        memory: self.image(old(store)).len() as usize,
                    },
                ),
            ),
    {
        let memory = self.memory_len(store);
        if !(offset as usize <= memory && bytes.len() <= memory - offset as usize) {
            let length: u32 = if bytes.len() <= u32::MAX as usize {
                bytes.len() as u32
            } else {
                #[verifier::truncate]
                (bytes.len() as u32)
            };
            return Err(
                BridgeError::AllocationFailure(
                    AllocationFailure::OutOfBounds { offset, length, memory },
                ),
            );
        }
        let data = memory_data_mut(&self.memory, store);
        let ghost before = data@;
        let mut i: usize = 0;
        while i < bytes.len()
            invariant
                i <= bytes@.len(),
                data@.len() == before.len(),
                offset + bytes@.len() <= before.len() == memory,
                forall|k: int| 0 <= k < i ==> data@[offset + k] == bytes@[k],
                forall|k: int|
                    0 <= k < before.len() && !(offset <= k < offset + i) ==> data@[k] == before[k],
            decreases bytes@.len() - i,
        {
            data[offset as usize + i] = bytes[i];
            i = i + 1;
        }
        proof {
            assert(data@ =~= overwritten(before, offset as int, bytes@));
        }
        Ok(())
    }
}

/// An allocation in guest memory that the host has to free after use.
pub struct WasmSliceWrapper<'w> {
    wasm_alloc: &'w WasmAlloc,
    wasm_slice: WasmSlice,
}

impl<'w> WasmSliceWrapper<'w> {
    /// The allocator the range was allocated with.
    pub closed spec fn allocator(&self) -> &'w WasmAlloc {
        self.wasm_alloc
    }

    /// The descriptor of the range.
    pub closed spec fn spec_wasm_slice(&self) -> WasmSlice {
        self.wasm_slice
    }

    /// Takes over the duty to free `wasm_slice` through `wasm_alloc`.
    pub fn new(wasm_alloc: &'w WasmAlloc, wasm_slice: WasmSlice) -> (wrapper: Self)
        ensures
            wrapper.allocator() == wasm_alloc,
            wrapper.spec_wasm_slice() == wasm_slice,
    {
        Self { wasm_alloc, wasm_slice }
    }

    /// Copies out the bytes of the range as the guest's memory holds them now.
    pub fn read(&self, store: &wasmtime::StoreContextMut<JavaState>) -> (bytes: Result<
        Vec<u8>,
        BridgeError,
    >)
        requires
            self.allocator().bound_to(store),
        ensures
            self.allocator().spec_read(store, self.spec_wasm_slice()) matches Ok(b) ==> (
            bytes matches Ok(v) && v@ == b),
            self.allocator().spec_read(store, self.spec_wasm_slice()) matches Err(e) ==> bytes
                == Err::<Vec<u8>, BridgeError>(e),
    {
        self.wasm_alloc.read(self.wasm_slice, store)
    }

    /// The bytes of the range, as a view into the guest's memory that lasts as long as the
    /// store stays borrowed.
    pub fn as_mut<'a>(
        &self,
        store: &'a mut wasmtime::StoreContextMut<'_, JavaState>,
    ) -> (view: Result<&'a mut [u8], BridgeError>)
        requires
            self.allocator().bound_to(old(store)),
        ensures
            same_store(old(store), final(store)),
            self.allocator().spec_read(old(store), self.spec_wasm_slice()) matches Ok(b) ==> (
            view matches Ok(v) && v@ == b && final(v)@.len() == b.len() && self.allocator().image(
                final(store),
            ) == overwritten(
                self.allocator().image(old(store)),
                self.spec_wasm_slice().spec_offset() as int,
                final(v)@,
            )),
            self.allocator().spec_read(old(store), self.spec_wasm_slice()) matches Err(e) ==> (
            view matches Err(f) && f == e && self.allocator().image(final(store))
                == self.allocator().image(old(store))),
    {
        self.wasm_alloc.as_mut(self.wasm_slice, store)
    }

    /// The descriptor that the record at the start of the range carries at this moment.
    pub fn obj_as_mut(&self, store: &wasmtime::StoreContextMut<JavaState>) -> (slice: Result<
        WasmSlice,
        BridgeError,
    >)
        requires
            self.allocator().bound_to(store),
        ensures
            slice == self.allocator().spec_obj(store, self.spec_wasm_slice().ptr),
    {
        self.wasm_alloc.obj_as_mut(self.wasm_slice.ptr, store)
    }

    /// Frees the range: the end of every allocation the host made. The range goes back to
    /// the deallocation routine of the allocator it was made through, as
    /// [`WasmAlloc::dealloc_bytes`] hands it.
    pub fn free(self, store: &mut wasmtime::StoreContextMut<JavaState>) -> (freed: Result<
        (),
        BridgeError,
    >)
        requires
            self.allocator().bound_to(old(store)),
        ensures
            same_store(old(store), final(store)),
            freed == Err::<(), BridgeError>(
                BridgeError::AllocationFailure(AllocationFailure::CannotFree),
            ) <==> !self.allocator().frees_by_offset_and_length(),
            !self.allocator().frees_by_offset_and_length() ==> *final(store) == *old(store),
            freed matches Err(e) ==> e is GuestTrap || e == BridgeError::AllocationFailure(
                AllocationFailure::CannotFree,
            ),
    {
        self.wasm_alloc.dealloc_bytes(self.wasm_slice, store)
    }

    /// Hands the range over to the guest: writes its descriptor into the record at guest
    /// offset `ptr`, and from then on the range is the guest's to free. Where the record
    /// does not lie inside the memory, nothing is written and the range goes back to the
    /// guest's deallocation routine; a failure to free it is added to `reports`, and a
    /// routine that cannot free always fails.
    pub fn hand_over(
        self,
        ptr: i32,
        store: &mut wasmtime::StoreContextMut<JavaState>,
        reports: &mut Vec<BridgeError>,
    ) -> (stored: Result<(), BridgeError>)
        requires
            self.allocator().bound_to(old(store)),
        ensures
            same_store(old(store), final(store)),
            reports_added(old(reports)@, final(reports)@),
            final(reports)@.len() <= old(reports)@.len() + 1,
            stored is Ok <==> record_at(ptr).fits(self.allocator().image(old(store)).len()),
            stored is Ok ==> final(reports)@ == old(reports)@ && self.allocator().bytes_at(
                final(store),
                record_at(ptr),
            ) == Some(self.spec_wasm_slice().spec_to_record()),
            stored is Ok ==> forall|other: WasmSlice|
                other.disjoint(record_at(ptr)) ==> #[trigger] self.allocator().bytes_at(
                    final(store),
                    other,
                ) == self.allocator().bytes_at(old(store), other),
            stored matches Err(e) ==> e == out_of_bounds(
                record_at(ptr),
                self.allocator().image(old(store)).len(),
            ),
            stored is Err ==> (!self.allocator().frees_by_offset_and_length() <==> final(reports)@
                == old(reports)@.push(
                BridgeError::AllocationFailure(AllocationFailure::CannotFree),
            )),
    {
        match self.wasm_alloc.store_obj(ptr, self.wasm_slice, store) {
            Ok(()) => Ok(()),
            Err(e) => {
                release(Some(self), store, reports);
                Err(e)
            },
        }
    }

    /// Copy out the descriptor. It stays valid only as long as the range is not freed.
    #[verifier::when_used_as_spec(spec_wasm_slice)]
    pub fn wasm_slice(&self) -> (slice: WasmSlice)
        ensures
            slice == self.spec_wasm_slice(),
    {
        self.wasm_slice
    }
}

} // verus!
