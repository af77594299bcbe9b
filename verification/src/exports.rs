//! What guest and host agree on: the names a guest exports for byte exchange, and the
//! descriptor of a byte range in the guest's linear memory.

use vstd::bytes::{
    lemma_auto_spec_u32_to_from_le_bytes, spec_u32_from_le_bytes, spec_u32_to_le_bytes,
    u32_from_le_bytes, u32_to_le_bytes,
};
use vstd::prelude::*;
use vstd::slice::slice_subrange;
use vstd::utf8::{decode_utf8, valid_utf8};
use crate::text::{string_from_utf8_lossy, utf8_lossy};

verus! {

/// Name of the exported linear memory.
pub const MEMORY_EXPORT: &'static str = "memory";

/// Name of the exported allocation routine, `(size: i32) -> i32`; it answers 0 when it cannot
/// allocate.
pub const ALLOC_EXPORT: &'static str = "__alloc_bytes";

/// Name of the exported deallocation routine, `(ptr: i32, size: i32) -> ()`.
pub const DEALLOC_EXPORT: &'static str = "__dealloc_bytes";

/// The unsigned reading of a 32-bit call slot: guest offsets and lengths cover the whole
/// 32-bit range, and a slot shows the upper half as negative numbers.
pub open spec fn unsigned(slot: i32) -> nat {
    if slot >= 0 {
        slot as nat
    } else {
        (slot + 0x1_0000_0000) as nat
    }
}

/// The call slot that shows an unsigned 32-bit number.
pub open spec fn signed(number: u32) -> i32 {
    if number <= i32::MAX {
        number as i32
    } else {
        (number - 0x1_0000_0000) as i32
    }
}

/// Reading a slot as unsigned and showing the number as a slot gives the slot back.
pub proof fn lemma_signed_unsigned(slot: i32)
    ensures
        unsigned(slot) <= u32::MAX,
        signed(unsigned(slot) as u32) == slot,
{
}

/// The unsigned reading of a call slot.
pub fn to_unsigned(slot: i32) -> (number: u32)
    ensures
        number == unsigned(slot),
        signed(number) == slot,
{
    let number = slot as u32;
    assert(number == (if slot >= 0 { slot as int } else { slot + 0x1_0000_0000 })) by (bit_vector)
        requires
            number == slot as u32,
    ;
    number
}

/// The call slot for an unsigned number.
pub fn to_signed(number: u32) -> (slot: i32)
    ensures
        slot == signed(number),
        unsigned(slot) == number,
{
    let slot = number as i32;
    assert(slot == (if number <= 0x7fff_ffff { number as int } else { number - 0x1_0000_0000 }))
        by (bit_vector)
        requires
            slot == number as i32,
    ;
    slot
}

/// Data that was allocated inside a guest module.
pub trait WasmAllocated: Sized {
    /// The offset slot of the data.
    spec fn spec_ptr(&self) -> i32;

    /// The length slot of the data.
    spec fn spec_len(&self) -> i32;

    /// Return the guest offset of the data.
    fn ptr(&self) -> (ptr: i32)
        ensures
            ptr == self.spec_ptr(),
    ;

    /// Return the length of the data in bytes.
    fn len(&self) -> (len: i32)
        ensures
            len == self.spec_len(),
    ;

    /// Swap the current data for `other`. The displaced data comes back owned: whoever holds
    /// it has to free it.
    fn replace(&mut self, other: Owned<Self>) -> (displaced: Owned<Self>)
        ensures
            *final(self) == other.0,
            displaced.0 == *old(self),
    ;

    /// Whether the data is zero bytes long.
    fn is_empty(&self) -> (empty: bool)
        ensures
            empty == (self.spec_len() == 0),
    {
        self.len() == 0
    }
}

/// A WasmSlice is an offset into the linear memory of a guest module instance, with a length.
///
/// It is only valid in the context of that memory and of the store the instance lives in.
/// Both fields are call slots: read them with [`WasmSlice::offset`] and
/// [`WasmSlice::length`] for the numbers they stand for.
#[derive(Clone, Copy, Debug, PartialEq, Eq, Structural)]
pub struct WasmSlice {
    pub ptr: i32,
    pub len: i32,
}

impl WasmSlice {
    /// A descriptor that is neither owned nor borrowed.
    pub fn new(ptr: i32, len: i32) -> (slice: Self)
        ensures
            slice == (WasmSlice { ptr, len }),
    {
        Self { ptr, len }
    }

    /// An owned descriptor: whoever holds it has to free the range.
    pub fn owned(ptr: i32, len: i32) -> (slice: Owned<Self>)
        ensures
            slice.0 == (WasmSlice { ptr, len }),
    {
        Owned(Self { ptr, len })
    }

    /// A borrowed descriptor: the range belongs to someone else and is never freed through it.
    pub fn borrowed(ptr: i32, len: &i32) -> (slice: Borrowed<Self>)
        ensures
            slice.val == (WasmSlice { ptr, len: *len }),
    {
        Borrowed { val: WasmSlice { ptr, len: *len } }
    }

    /// The guest offset the descriptor points at.
    pub open spec fn spec_offset(&self) -> nat {
        unsigned(self.ptr)
    }

    /// The number of bytes the descriptor covers.
    pub open spec fn spec_length(&self) -> nat {
        unsigned(self.len)
    }

    /// The guest offset the descriptor points at.
    pub fn offset(&self) -> (offset: u32)
        ensures
            offset == self.spec_offset(),
    {
        to_unsigned(self.ptr)
    }

    /// The number of bytes the descriptor covers.
    pub fn length(&self) -> (length: u32)
        ensures
            length == self.spec_length(),
    {
        to_unsigned(self.len)
    }

    /// Whether the range lies inside a memory of `memory_len` bytes.
    pub open spec fn fits(&self, memory_len: nat) -> bool {
        self.spec_offset() + self.spec_length() <= memory_len
    }

    /// Whether two ranges have no byte in common.
    pub open spec fn disjoint(&self, other: WasmSlice) -> bool {
        self.spec_offset() + self.spec_length() <= other.spec_offset() || other.spec_offset()
            + other.spec_length() <= self.spec_offset()
    }

    /// The bytes the descriptor covers in a memory image.
    pub open spec fn bytes_in(&self, memory: Seq<u8>) -> Seq<u8>
        recommends
            self.fits(memory.len()),
    {
        memory.subrange(self.spec_offset() as int, (self.spec_offset() + self.spec_length()) as int)
    }

    /// The record that carries the descriptor through guest memory: the offset, then the
    /// length, each as a little-endian 32-bit integer.
    pub open spec fn spec_to_record(&self) -> Seq<u8> {
        spec_u32_to_le_bytes(self.spec_offset() as u32) + spec_u32_to_le_bytes(
            self.spec_length() as u32,
        )
    }

    /// The descriptor that an eight-byte record carries.
    pub open spec fn spec_from_record(record: Seq<u8>) -> WasmSlice
        recommends
            record.len() == 8,
    {
        WasmSlice {
            ptr: signed(spec_u32_from_le_bytes(record.subrange(0, 4))),
            len: signed(spec_u32_from_le_bytes(record.subrange(4, 8))),
        }
    }

    /// The record that carries the descriptor through guest memory.
    pub fn to_record(&self) -> (record: Vec<u8>)
        ensures
            record@ == self.spec_to_record(),
            record@.len() == 8,
    {
        let mut record = u32_to_le_bytes(self.offset());
        let mut length = u32_to_le_bytes(self.length());
        record.append(&mut length);
        record
    }

    /// The descriptor that an eight-byte record carries.
    pub fn from_record(record: &[u8]) -> (slice: WasmSlice)
        requires
            record@.len() == 8,
        ensures
            slice == Self::spec_from_record(record@),
    {
        let ptr = u32_from_le_bytes(slice_subrange(record, 0, 4));
        let len = u32_from_le_bytes(slice_subrange(record, 4, 8));
        WasmSlice { ptr: to_signed(ptr), len: to_signed(len) }
    }

    /// A record gives back the descriptor it was made from.
    pub proof fn lemma_record_roundtrip(self)
        ensures
            self.spec_to_record().len() == 8,
            Self::spec_from_record(self.spec_to_record()) == self,
    {
        lemma_auto_spec_u32_to_from_le_bytes();
        let offset = spec_u32_to_le_bytes(self.spec_offset() as u32);
        let length = spec_u32_to_le_bytes(self.spec_length() as u32);
        assert(self.spec_to_record().subrange(0, 4) =~= offset);
        assert(self.spec_to_record().subrange(4, 8) =~= length);
        lemma_signed_unsigned(self.ptr);
        lemma_signed_unsigned(self.len);
    }

    /// The bytes of the range, read from the memory image the descriptor is valid for, or
    /// `None` when the range does not lie inside the image.
    pub fn as_bytes<'a>(&self, memory: &'a [u8]) -> (bytes: Option<&'a [u8]>)
        ensures
            bytes is Some <==> self.fits(memory@.len()),
            bytes matches Some(b) ==> b@ == self.bytes_in(memory@),
    {
        let offset = self.offset() as usize;
        let length = self.length() as usize;
        if offset <= memory.len() && length <= memory.len() - offset {
            Some(slice_subrange(memory, offset, offset + length))
        } else {
            None
        }
    }
}

impl WasmSlice {
    /// Return the content as text: the lossy UTF-8 decoding of the bytes of the range in the
    /// given memory image, or `None` when the range does not lie inside the image.
    pub fn from_utf8_lossy(&self, memory: &[u8]) -> (text: Option<String>)
        ensures
            text is Some <==> self.fits(memory@.len()),
            text matches Some(t) ==> t@ == utf8_lossy(self.bytes_in(memory@)) && (valid_utf8(
                self.bytes_in(memory@),
            ) ==> t@ == decode_utf8(self.bytes_in(memory@))),
    {
        match self.as_bytes(memory) {
            Some(string) => Some(string_from_utf8_lossy(string)),
            None => None,
        }
    }
}

impl WasmAllocated for WasmSlice {
    open spec fn spec_ptr(&self) -> i32 {
        self.ptr
    }

    open spec fn spec_len(&self) -> i32 {
        self.len
    }

    fn ptr(&self) -> (ptr: i32) {
        self.ptr
    }

    fn len(&self) -> (len: i32) {
        self.len
    }

    fn replace(&mut self, other: Owned<Self>) -> (displaced: Owned<Self>) {
        let displaced = Owned(*self);
        self.ptr = other.0.ptr;
        self.len = other.0.len;
        displaced
    }
}

/// An owned item: its holder has to free it.
#[derive(Debug)]
pub struct Owned<T: WasmAllocated>(pub T);

impl<T: WasmAllocated> Owned<T> {
    /// The item, with the duty to free it.
    pub fn into_inner(self) -> (item: T)
        ensures
            item == self.0,
    {
        self.0
    }
}

/// A borrowed item: it is never freed through this value.
#[derive(Debug)]
pub struct Borrowed<T: WasmAllocated> {
    pub val: T,
}

} // verus!
