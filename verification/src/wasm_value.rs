//! The closed set of value kinds, and how a value of each kind crosses the boundary.

use vstd::prelude::*;
use vstd::std_specs::convert::FromSpecImpl;
use vstd::string::StringExecFns;
use vstd::utf8::{decode_utf8, encode_utf8, valid_utf8};
use crate::engine::same_store;
use crate::error::{BridgeError, SignatureMismatch};
use crate::exports::WasmSlice;
use crate::java::{JavaClass, JavaObject, JavaObjectView, JavaValue};
use crate::text::{string_from_utf8_lossy, utf8_lossy};
use crate::ty::complex_ty::{
    deref_opt, memory_failure, release, reports_added, scalar_return, scalar_taken,
    spec_expect_nothing, spec_expect_return, spec_matches, spec_scalar_return, spec_take_scalar,
    take_scalar, taken_by_match, Abi, ReturnAbi, F32, F64,
};
use crate::ty::wasm_alloc::{WasmAlloc, WasmSliceWrapper, RECORD_SIZE};
use crate::val::{SlotType, SlotValue, Slots};
use crate::wasm_state::JavaState;

verus! {

/// Canonical name of the managed direct byte-buffer class.
pub const BYTE_BUFFER: &'static str = "java.nio.ByteBuffer";

/// The kind of a value that crosses the boundary. A kind is chosen once for each managed
/// type, when a bridge is made, and everything after goes by the kind.
#[derive(Clone, Copy, Debug, PartialEq, Eq, Structural)]
pub enum WasmTy {
    /// A direct byte buffer: a view of guest memory. It can be passed, never returned.
    ByteBuffer,
    /// A byte array, copied across.
    ByteArray,
    /// Text, which crosses as UTF-8 bytes.
    String,
    /// A scalar in one call slot of the given type.
    Slot(SlotType),
}

impl From<SlotType> for WasmTy {
    fn from(val: SlotType) -> (ty: Self) {
        WasmTy::Slot(val)
    }
}

impl FromSpecImpl<SlotType> for WasmTy {
    open spec fn obeys_from_spec() -> bool {
        true
    }

    open spec fn from_spec(val: SlotType) -> Self {
        WasmTy::Slot(val)
    }
}

impl WasmTy {
    /// Whether values of the kind can be marshaled: every kind but a slot of a type that is
    /// no scalar.
    pub open spec fn supported(&self) -> bool {
        *self matches WasmTy::Slot(ty) ==> ty.spec_is_scalar()
    }

    /// The slot types of one value of the kind in argument position: its own slot for a
    /// scalar, offset and length for a value that lives in guest memory.
    pub open spec fn arg_tys(&self) -> Seq<SlotType> {
        match *self {
            WasmTy::Slot(ty) => seq![ty],
            _ => seq![SlotType::I32, SlotType::I32],
        }
    }

    /// The result slot type of the kind, or `None` for a kind that returns by reference.
    pub open spec fn return_ty(&self) -> Option<SlotType> {
        match *self {
            WasmTy::Slot(ty) => Some(ty),
            _ => None,
        }
    }

    /// Place the slot types of the kind at the end of a type list.
    pub fn push_arg_tys(&self, args: &mut Vec<SlotType>)
        requires
            self.supported(),
        ensures
            final(args)@ == old(args)@ + self.arg_tys(),
    {
        match self {
            WasmTy::ByteBuffer | WasmTy::ByteArray | WasmTy::String => {
                WasmSlice::push_arg_tys(args)
            },
            WasmTy::Slot(SlotType::I32) => i32::push_arg_tys(args),
            WasmTy::Slot(SlotType::I64) => i64::push_arg_tys(args),
            WasmTy::Slot(SlotType::F32) => F32::push_arg_tys(args),
            WasmTy::Slot(SlotType::F64) => F64::push_arg_tys(args),
            WasmTy::Slot(_) => {},
        }
    }

    /// Hold the next slot types of a function's real parameter list against the kind. A
    /// mismatch names the index of the slot in the whole list, the type expected there and
    /// the type found.
    pub fn matches_arg_tys(&self, tys: &mut Slots<SlotType>) -> (matched: Result<
        (),
        SignatureMismatch,
    >)
        requires
            self.supported(),
        ensures
            matched == spec_matches(
                self.arg_tys(),
                old(tys).rest(),
                old(tys).spec_position() as int,
            ),
            final(tys).rest() == old(tys).rest().skip(
                taken_by_match(self.arg_tys(), old(tys).rest()),
            ),
            final(tys).spec_position() == old(tys).spec_position() + taken_by_match(
                self.arg_tys(),
                old(tys).rest(),
            ),
    {
        match self {
            WasmTy::ByteBuffer | WasmTy::ByteArray | WasmTy::String => {
                WasmSlice::matches_arg_tys(tys)
            },
            WasmTy::Slot(SlotType::I32) => i32::matches_arg_tys(tys),
            WasmTy::Slot(SlotType::I64) => i64::matches_arg_tys(tys),
            WasmTy::Slot(SlotType::F32) => F32::matches_arg_tys(tys),
            WasmTy::Slot(SlotType::F64) => F64::matches_arg_tys(tys),
            WasmTy::Slot(_) => Ok(()),
        }
    }

    /// Take the trailing parameter of a return by reference from an argument list: the guest
    /// offset of the record. A scalar kind takes nothing.
    pub fn get_return_by_ref_arg(&self, args: &mut Slots<SlotValue>) -> (ptr: Option<i32>)
        requires
            self.supported(),
        ensures
            self.return_ty() is Some ==> ptr is None && final(args).rest() == old(args).rest(),
            self.return_ty() is None ==> ptr == (if old(args).rest().len() > 0 && old(
                args,
            ).rest()[0] is I32 {
                Some(old(args).rest()[0]->I32_0)
            } else {
                None::<i32>
            }) && final(args).rest() == old(args).rest().skip(
                scalar_taken(old(args).rest()) as int,
            ),
    {
        match self {
            WasmTy::ByteBuffer | WasmTy::ByteArray | WasmTy::String => {
                WasmSlice::get_return_by_ref_arg(args)
            },
            WasmTy::Slot(SlotType::I32) => i32::get_return_by_ref_arg(args),
            WasmTy::Slot(SlotType::I64) => i64::get_return_by_ref_arg(args),
            WasmTy::Slot(SlotType::F32) => F32::get_return_by_ref_arg(args),
            WasmTy::Slot(SlotType::F64) => F64::get_return_by_ref_arg(args),
            WasmTy::Slot(_) => None,
        }
    }

    /// Place what the kind needs for a return in a function type: its result slot type is
    /// handed back, and a kind that returns by reference gets a trailing parameter.
    pub fn return_or_push_arg_tys(&self, args: &mut Vec<SlotType>) -> (ret: Option<SlotType>)
        requires
            self.supported(),
        ensures
            ret == self.return_ty(),
            self.return_ty() is Some ==> final(args)@ == old(args)@,
            self.return_ty() is None ==> final(args)@ == old(args)@.push(SlotType::I32),
    {
        match self {
            WasmTy::ByteBuffer | WasmTy::ByteArray | WasmTy::String => {
                WasmSlice::return_or_push_arg_tys(args)
            },
            WasmTy::Slot(SlotType::I32) => i32::return_or_push_arg_tys(args),
            WasmTy::Slot(SlotType::I64) => i64::return_or_push_arg_tys(args),
            WasmTy::Slot(SlotType::F32) => F32::return_or_push_arg_tys(args),
            WasmTy::Slot(SlotType::F64) => F64::return_or_push_arg_tys(args),
            WasmTy::Slot(ty) => Some(*ty),
        }
    }

    /// Hold a function's real result type and the next of its real parameter types against
    /// the kind's way to return: a scalar is the one result of the function; a value returned
    /// by reference takes the next parameter for its record and leaves the result list
    /// empty.
    pub fn matches_return_or_arg_tys(
        &self,
        ret: Option<SlotType>,
        arg_tys: &mut Slots<SlotType>,
    ) -> (matched: Result<(), BridgeError>)
        requires
            self.supported(),
        ensures
            self.return_ty() matches Some(ty) ==> matched == spec_expect_return(ty, ret)
                && final(arg_tys).rest() == old(arg_tys).rest(),
            self.return_ty() is None ==> matched == (match spec_matches(
                seq![SlotType::I32],
                old(arg_tys).rest(),
                old(arg_tys).spec_position() as int,
            ) {
                Ok(()) => spec_expect_nothing(ret),
                Err(mismatch) => Err(BridgeError::SignatureMismatch(mismatch)),
            }) && final(arg_tys).rest() == old(arg_tys).rest().skip(
                taken_by_match(seq![SlotType::I32], old(arg_tys).rest()),
            ),
    {
        match self {
            WasmTy::ByteBuffer | WasmTy::ByteArray | WasmTy::String => {
                WasmSlice::matches_return_or_arg_tys(ret, arg_tys)
            },
            WasmTy::Slot(SlotType::I32) => i32::matches_return_or_arg_tys(ret, arg_tys),
            WasmTy::Slot(SlotType::I64) => i64::matches_return_or_arg_tys(ret, arg_tys),
            WasmTy::Slot(SlotType::F32) => F32::matches_return_or_arg_tys(ret, arg_tys),
            WasmTy::Slot(SlotType::F64) => F64::matches_return_or_arg_tys(ret, arg_tys),
            WasmTy::Slot(_) => Ok(()),
        }
    }

    /// The name of the kind, as the managed side writes the type.
    pub fn name(&self) -> (name: &'static str)
        ensures
            name@ == self.spec_name(),
    {
        match self {
            WasmTy::ByteBuffer => "ByteBuffer",
            WasmTy::ByteArray => "byte[]",
            WasmTy::String => "String",
            WasmTy::Slot(ty) => ty.name(),
        }
    }

    /// The name of the kind, as the managed side writes the type.
    pub open spec fn spec_name(&self) -> Seq<char> {
        match *self {
            WasmTy::ByteBuffer => "ByteBuffer"@,
            WasmTy::ByteArray => "byte[]"@,
            WasmTy::String => "String"@,
            WasmTy::Slot(ty) => ty.spec_name(),
        }
    }
}

/// A value on its way from the managed runtime into the guest. Bytes and text stay where
/// the managed side put them until they are copied into guest memory.
#[derive(Clone, Copy, Debug, PartialEq, Eq)]
pub enum WasmVal<'j> {
    /// The bytes of a byte array.
    ByteArray(&'j [u8]),
    /// A text.
    String(&'j str),
    /// A scalar, as the slot value that carries it.
    Val(SlotValue),
}

/// The mathematical content of a [`WasmVal`].
pub enum WasmValView {
    ByteArray(Seq<u8>),
    String(Seq<char>),
    Val(SlotValue),
}

impl<'j> View for WasmVal<'j> {
    type V = WasmValView;

    open spec fn view(&self) -> WasmValView {
        match *self {
            WasmVal::ByteArray(bytes) => WasmValView::ByteArray(bytes@),
            WasmVal::String(text) => WasmValView::String(text@),
            WasmVal::Val(val) => WasmValView::Val(val),
        }
    }
}

impl<'j> From<SlotValue> for WasmVal<'j> {
    fn from(val: SlotValue) -> (this: Self) {
        WasmVal::Val(val)
    }
}

impl<'j> FromSpecImpl<SlotValue> for WasmVal<'j> {
    open spec fn obeys_from_spec() -> bool {
        true
    }

    open spec fn from_spec(val: SlotValue) -> Self {
        WasmVal::Val(val)
    }
}

impl<'j> WasmVal<'j> {
    /// The value that the bytes of a byte array are.
    pub fn from_byte_array(jarray: &'j [u8]) -> (val: Self)
        ensures
            val@ == WasmValView::ByteArray(jarray@),
    {
        WasmVal::ByteArray(jarray)
    }

    /// The kind of the value.
    pub open spec fn spec_ty(&self) -> WasmTy {
        match *self {
            WasmVal::ByteArray(_) => WasmTy::ByteArray,
            WasmVal::String(_) => WasmTy::String,
            WasmVal::Val(val) => WasmTy::Slot(val.spec_ty()),
        }
    }

    /// The kind of the value.
    #[verifier::when_used_as_spec(spec_ty)]
    pub fn ty(&self) -> (ty: WasmTy)
        ensures
            ty == self.spec_ty(),
    {
        match self {
            WasmVal::ByteArray(_) => WasmTy::ByteArray,
            WasmVal::String(_) => WasmTy::String,
            WasmVal::Val(val) => WasmTy::Slot(val.ty()),
        }
    }
}

/// The kind that a declared managed class stands for: `Some(None)` for a class that stands
/// for no value at all, and `None` for a class that has no kind. A direct byte buffer has a
/// kind as a parameter only.
pub open spec fn class_kind(clazz: JavaClass, for_return: bool) -> Option<Option<WasmTy>> {
    match clazz {
        JavaClass::Null => Some(None),
        JavaClass::Long | JavaClass::LongPrimitive => Some(Some(WasmTy::Slot(SlotType::I64))),
        JavaClass::Integer | JavaClass::IntPrimitive => Some(Some(WasmTy::Slot(SlotType::I32))),
        JavaClass::Double | JavaClass::DoublePrimitive => Some(Some(WasmTy::Slot(SlotType::F64))),
        JavaClass::Float | JavaClass::FloatPrimitive => Some(Some(WasmTy::Slot(SlotType::F32))),
        JavaClass::ByteBuffer { name } => if for_return {
            None
        } else {
            Some(Some(WasmTy::ByteBuffer))
        },
        JavaClass::ByteArray => Some(Some(WasmTy::ByteArray)),
        JavaClass::String => Some(Some(WasmTy::String)),
        JavaClass::Void | JavaClass::VoidPrimitive => Some(None),
        JavaClass::Other { name } => None,
    }
}

/// The canonical name that a class without a kind is reported by.
pub open spec fn class_name(clazz: JavaClass) -> Seq<char> {
    match clazz {
        JavaClass::ByteBuffer { name } => name@,
        JavaClass::Other { name } => name@,
        _ => Seq::empty(),
    }
}

/// The kind of a declared managed class, as a parameter or as a return. A class that stands
/// for no value gives `None`; a class that has no kind is an error that names it.
pub fn from_java_class(clazz: &JavaClass, for_return: bool) -> (kind: Result<
    Option<WasmTy>,
    BridgeError,
>)
    ensures
        class_kind(*clazz, for_return) matches Some(k) ==> kind == Ok::<
            Option<WasmTy>,
            BridgeError,
        >(k),
        class_kind(*clazz, for_return) is None ==> (kind matches Err(
            BridgeError::UnsupportedType { name, for_return: position },
        ) && name@ == class_name(*clazz) && position == for_return),
        kind matches Ok(Some(k)) ==> k.supported(),
{
    let ty: WasmTy = match clazz {
        JavaClass::Null => {
            return Ok(None);
        },
        JavaClass::Long | JavaClass::LongPrimitive => WasmTy::Slot(SlotType::I64),
        JavaClass::Integer | JavaClass::IntPrimitive => WasmTy::Slot(SlotType::I32),
        JavaClass::Double | JavaClass::DoublePrimitive => WasmTy::Slot(SlotType::F64),
        JavaClass::Float | JavaClass::FloatPrimitive => WasmTy::Slot(SlotType::F32),
        JavaClass::ByteBuffer { name } => {
            if for_return {
                // can't return
                return Err(BridgeError::UnsupportedType { name: name.clone(), for_return });
            }
            WasmTy::ByteBuffer
        },
        JavaClass::ByteArray => WasmTy::ByteArray,
        JavaClass::String => WasmTy::String,
        JavaClass::Void | JavaClass::VoidPrimitive => {
            return Ok(None);
        },
        JavaClass::Other { name } => {
            return Err(BridgeError::UnsupportedType { name: name.clone(), for_return });
        },
    };

    Ok(Some(ty))
}

/// What a managed object carries into the guest, or the name of its class where objects of
/// the class carry nothing.
pub open spec fn spec_from_java(obj: JavaObjectView) -> Result<WasmValView, Seq<char>> {
    match obj {
        JavaObjectView::Long(v) => Ok(WasmValView::Val(SlotValue::I64(v))),
        JavaObjectView::Integer(v) => Ok(WasmValView::Val(SlotValue::I32(v))),
        JavaObjectView::Double(v) => Ok(WasmValView::Val(SlotValue::F64(v))),
        JavaObjectView::Float(v) => Ok(WasmValView::Val(SlotValue::F32(v))),
        JavaObjectView::ByteArray(bytes) => Ok(WasmValView::ByteArray(bytes)),
        JavaObjectView::String(text) => Ok(WasmValView::String(text)),
        JavaObjectView::ByteBuffer(_) => Err(BYTE_BUFFER@),
        JavaObjectView::Other { name } => Err(name),
    }
}

/// The value that a managed object carries into the guest. An object of a class without a
/// kind is an error that names the class.
pub fn from_java<'j>(obj: &'j JavaObject) -> (val: Result<WasmVal<'j>, BridgeError>)
    ensures
        spec_from_java(obj@) matches Ok(v) ==> (val matches Ok(w) && w@ == v),
        spec_from_java(obj@) matches Err(n) ==> (val matches Err(
            BridgeError::UnsupportedObject { name },
        ) && name@ == n),
{
    match obj {
        JavaObject::Long(v) => Ok(WasmVal::Val(SlotValue::I64(*v))),
        JavaObject::Integer(v) => Ok(WasmVal::Val(SlotValue::I32(*v))),
        JavaObject::Double(v) => Ok(WasmVal::Val(SlotValue::F64(*v))),
        JavaObject::Float(v) => Ok(WasmVal::Val(SlotValue::F32(*v))),
        JavaObject::ByteArray(bytes) => Ok(WasmVal::from_byte_array(bytes.as_slice())),
        JavaObject::String(text) => Ok(WasmVal::String(text.as_str())),
        JavaObject::ByteBuffer(_) => Err(
            BridgeError::UnsupportedObject { name: String::from_str(BYTE_BUFFER) },
        ),
        JavaObject::Other { name } => Err(BridgeError::UnsupportedObject { name: name.clone() }),
    }
}

/// The value that the result of a managed method carries into the guest: `None` for the
/// null reference. A primitive of a type without a kind is an error that names the type.
pub fn from_jvalue<'j>(val: &'j JavaValue) -> (carried: Result<Option<WasmVal<'j>>, BridgeError>)
    ensures
        match *val {
            JavaValue::Object(None) => carried matches Ok(None),
            JavaValue::Object(Some(obj)) => match spec_from_java(obj@) {
                Ok(v) => carried matches Ok(Some(w)) && w@ == v,
                Err(n) => carried matches Err(BridgeError::UnsupportedObject { name }) && name@
                    == n,
            },
            JavaValue::Long(v) => carried matches Ok(Some(w)) && w@ == WasmValView::Val(
                SlotValue::I64(v),
            ),
            JavaValue::Int(v) => carried matches Ok(Some(w)) && w@ == WasmValView::Val(
                SlotValue::I32(v),
            ),
            JavaValue::Double(v) => carried matches Ok(Some(w)) && w@ == WasmValView::Val(
                SlotValue::F64(v),
            ),
            JavaValue::Float(v) => carried matches Ok(Some(w)) && w@ == WasmValView::Val(
                SlotValue::F32(v),
            ),
            JavaValue::Other { name: n } => carried matches Err(
                BridgeError::UnsupportedValue { name },
            ) && name@ == n@,
        },
{
    let val = match val {
        JavaValue::Object(obj) => {
            match obj {
                None => {
                    return Ok(None);
                },
                Some(obj) => {
                    return match from_java(obj) {
                        Ok(val) => Ok(Some(val)),
                        Err(e) => Err(e),
                    };
                },
            }
        },
        JavaValue::Long(v) => SlotValue::I64(*v),
        JavaValue::Int(v) => SlotValue::I32(*v),
        JavaValue::Double(v) => SlotValue::F64(*v),
        JavaValue::Float(v) => SlotValue::F32(*v),
        JavaValue::Other { name } => {
            return Err(BridgeError::UnsupportedValue { name: name.clone() });
        },
    };

    Ok(Some(WasmVal::Val(val)))
}

/// The managed object that boxes a scalar.
pub open spec fn java_scalar(val: SlotValue) -> JavaObjectView
    recommends
        val.spec_ty().spec_is_scalar(),
{
    match val {
        SlotValue::I32(v) => JavaObjectView::Integer(v),
        SlotValue::I64(v) => JavaObjectView::Long(v),
        SlotValue::F32(v) => JavaObjectView::Float(v),
        SlotValue::F64(v) => JavaObjectView::Double(v),
        _ => JavaObjectView::Other { name: Seq::empty() },
    }
}

/// The managed object that boxes a scalar, or `None` for a slot that holds no scalar.
pub fn boxed(val: SlotValue) -> (obj: Option<JavaObject>)
    ensures
        obj is Some <==> val.spec_ty().spec_is_scalar(),
        obj matches Some(o) ==> o@ == java_scalar(val),
{
    match val {
        SlotValue::I32(v) => Some(JavaObject::Integer(v)),
        SlotValue::I64(v) => Some(JavaObject::Long(v)),
        SlotValue::F32(v) => Some(JavaObject::Float(v)),
        SlotValue::F64(v) => Some(JavaObject::Double(v)),
        _ => None,
    }
}

/// The guest memory that an allocator reaches at this moment, and `None` without an
/// allocator.
pub open spec fn spec_image(
    wasm_alloc: Option<&WasmAlloc>,
    store: &wasmtime::StoreContextMut<JavaState>,
) -> Option<Seq<u8>> {
    match wasm_alloc {
        None => None,
        Some(a) => Some(a.image(store)),
    }
}

/// What the range of a descriptor reads as in a guest memory that may be out of reach: its
/// bytes, or the bounds it breaks, or that there is no allocator to reach the memory.
pub open spec fn spec_range_in(image: Option<Seq<u8>>, slice: WasmSlice) -> Result<
    Seq<u8>,
    BridgeError,
> {
    match image {
        None => Err(BridgeError::MissingAllocator),
        Some(memory) => if slice.fits(memory.len()) {
            Ok(slice.bytes_in(memory))
        } else {
            Err(
                BridgeError::AllocationFailure(
                    crate::error::AllocationFailure::OutOfBounds {
                        offset: slice.spec_offset() as u32,
                        length: slice.spec_length() as u32,
                        memory: memory.len() as usize,
                    },
                ),
            )
        },
    }
}

/// What the range of a descriptor reads as at this moment, through an allocator that may
/// be missing.
pub open spec fn spec_range(
    wasm_alloc: Option<&WasmAlloc>,
    store: &wasmtime::StoreContextMut<JavaState>,
    slice: WasmSlice,
) -> Result<Seq<u8>, BridgeError> {
    spec_range_in(spec_image(wasm_alloc, store), slice)
}

/// The managed object that a value of a kind in guest memory becomes, from its descriptor
/// and the bytes of its range.
pub open spec fn spec_object(ty: WasmTy, slice: WasmSlice, bytes: Seq<u8>) -> JavaObjectView {
    match ty {
        WasmTy::ByteBuffer => JavaObjectView::ByteBuffer(slice),
        WasmTy::ByteArray => JavaObjectView::ByteArray(bytes),
        WasmTy::String => JavaObjectView::String(utf8_lossy(bytes)),
        WasmTy::Slot(_) => JavaObjectView::Other { name: Seq::empty() },
    }
}

/// A range of guest memory on its way to become a direct byte buffer.
pub struct IntoByteBuffer(pub WasmSlice);

/// A range of guest memory on its way to become a byte array.
pub struct IntoByteArray(pub WasmSlice);

/// A range of guest memory on its way to become a text.
pub struct IntoString(pub WasmSlice);

impl IntoByteBuffer {
    /// The direct byte buffer over the range: a view, for which the range has to lie inside
    /// the guest's memory.
    pub fn into_java(
        self,
        wasm_alloc: Option<&WasmAlloc>,
        store: &wasmtime::StoreContextMut<JavaState>,
    ) -> (obj: Result<JavaObject, BridgeError>)
        requires
            wasm_alloc matches Some(a) ==> a.bound_to(store),
        ensures
            spec_range(wasm_alloc, store, self.0) matches Ok(b) ==> (obj matches Ok(o) && o@
                == spec_object(WasmTy::ByteBuffer, self.0, b)),
            spec_range(wasm_alloc, store, self.0) matches Err(e) ==> obj == Err::<
                JavaObject,
                BridgeError,
            >(e),
    {
        let wasm_alloc = match wasm_alloc {
            Some(wasm_alloc) => wasm_alloc,
            None => {
                return Err(BridgeError::MissingAllocator);
            },
        };
        let offset = self.0.offset();
        let length = self.0.length();
        let memory = wasm_alloc.memory_len(store);
        if offset as usize <= memory && length as usize <= memory - offset as usize {
            Ok(JavaObject::ByteBuffer(self.0))
        } else {
            Err(
                BridgeError::AllocationFailure(
                    crate::error::AllocationFailure::OutOfBounds { offset, length, memory },
                ),
            )
        }
    }
}

impl IntoByteArray {
    /// The byte array that holds a copy of the range.
    pub fn into_java(
        self,
        wasm_alloc: Option<&WasmAlloc>,
        store: &wasmtime::StoreContextMut<JavaState>,
    ) -> (obj: Result<JavaObject, BridgeError>)
        requires
            wasm_alloc matches Some(a) ==> a.bound_to(store),
        ensures
            spec_range(wasm_alloc, store, self.0) matches Ok(b) ==> (obj matches Ok(o) && o@
                == spec_object(WasmTy::ByteArray, self.0, b)),
            spec_range(wasm_alloc, store, self.0) matches Err(e) ==> obj == Err::<
                JavaObject,
                BridgeError,
            >(e),
    {
        let wasm_alloc = match wasm_alloc {
            Some(wasm_alloc) => wasm_alloc,
            None => {
                return Err(BridgeError::MissingAllocator);
            },
        };
        let bytes = wasm_alloc.read(self.0, store)?;
        Ok(JavaObject::ByteArray(bytes))
    }
}

impl IntoString {
    /// The text that the bytes of the range decode to. The bytes are expected to be UTF-8,
    /// and what is not becomes the replacement character.
    pub fn into_java(
        self,
        wasm_alloc: Option<&WasmAlloc>,
        store: &wasmtime::StoreContextMut<JavaState>,
    ) -> (obj: Result<JavaObject, BridgeError>)
        requires
            wasm_alloc matches Some(a) ==> a.bound_to(store),
        ensures
            spec_range(wasm_alloc, store, self.0) matches Ok(b) ==> (obj matches Ok(o) && o@
                == spec_object(WasmTy::String, self.0, b) && (valid_utf8(b) ==> o@
                == JavaObjectView::String(decode_utf8(b)))),
            spec_range(wasm_alloc, store, self.0) matches Err(e) ==> obj == Err::<
                JavaObject,
                BridgeError,
            >(e),
    {
        let wasm_alloc = match wasm_alloc {
            Some(wasm_alloc) => wasm_alloc,
            None => {
                return Err(BridgeError::MissingAllocator);
            },
        };
        let bytes = wasm_alloc.read(self.0, store)?;
        let string = string_from_utf8_lossy(bytes.as_slice());
        Ok(JavaObject::String(string))
    }
}

impl WasmTy {
    /// Load the managed object for the next argument of a callback from the slots the guest
    /// passed. A value in guest memory is read through the allocator; its range stays the
    /// guest's, and nothing is freed.
    pub fn load_from_args(
        &self,
        args: &mut Slots<SlotValue>,
        wasm_alloc: Option<&WasmAlloc>,
        store: &wasmtime::StoreContextMut<JavaState>,
    ) -> (obj: Result<JavaObject, BridgeError>)
        requires
            self.supported(),
            wasm_alloc matches Some(a) ==> a.bound_to(store),
        ensures
            *self matches WasmTy::Slot(ty) ==> (match spec_take_scalar(ty, old(args).rest()) {
                Ok(v) => obj matches Ok(o) && o@ == java_scalar(v),
                Err(e) => obj == Err::<JavaObject, BridgeError>(e),
            }) && final(args).rest() == old(args).rest().skip(
                scalar_taken(old(args).rest()) as int,
            ),
            !(*self is Slot) ==> (match WasmSlice::from_args(old(args).rest()) {
                Err(e) => obj == Err::<JavaObject, BridgeError>(e),
                Ok(slice) => match spec_range(wasm_alloc, store, slice) {
                    Err(e) => obj == Err::<JavaObject, BridgeError>(e),
                    Ok(b) => obj matches Ok(o) && o@ == spec_object(*self, slice, b) && (
                    *self is String && valid_utf8(b) ==> o@ == JavaObjectView::String(
                        decode_utf8(b),
                    )),
                },
            }) && final(args).rest() == old(args).rest().skip(
                WasmSlice::args_taken(old(args).rest()) as int,
            ),
    {
        match self {
            WasmTy::ByteBuffer => {
                // we do not want to deallocate here...
                let wasm_slice = WasmSlice::load_from_args(args)?;
                IntoByteBuffer(wasm_slice).into_java(wasm_alloc, store)
            },
            WasmTy::ByteArray => {
                let wasm_slice = WasmSlice::load_from_args(args)?;
                IntoByteArray(wasm_slice).into_java(wasm_alloc, store)
            },
            WasmTy::String => {
                let wasm_slice = WasmSlice::load_from_args(args)?;
                IntoString(wasm_slice).into_java(wasm_alloc, store)
            },
            WasmTy::Slot(ty) => {
                let val = take_scalar(*ty, args)?;
                match boxed(val) {
                    Some(obj) => Ok(obj),
                    None => Err(BridgeError::IncorrectArgument { expected: *ty, found: val }),
                }
            },
        }
    }

    /// Prepare an argument list for a return of this kind: a kind that returns by reference
    /// gets a zeroed record in guest memory, whose offset becomes the trailing argument; the
    /// record comes back for the caller to read and free.
    pub fn return_or_store_to_arg<'w>(
        self,
        args: &mut Vec<SlotValue>,
        wasm_alloc: Option<&'w WasmAlloc>,
        store: &mut wasmtime::StoreContextMut<JavaState>,
    ) -> (record: Result<Option<WasmSliceWrapper<'w>>, BridgeError>)
        requires
            self.supported(),
            wasm_alloc matches Some(a) ==> a.bound_to(old(store)),
        ensures
            same_store(old(store), final(store)),
            self.return_ty() is Some ==> (record matches Ok(None)) && final(args)@ == old(args)@,
            self.return_ty() is None ==> match record {
                Ok(Some(w)) => wasm_alloc == Some(w.allocator()) && final(args)@ == old(args)@.push(
                    SlotValue::I32(w.spec_wasm_slice().ptr),
                ) && w.spec_wasm_slice().ptr != 0 && w.spec_wasm_slice().spec_length()
                    == RECORD_SIZE,
                Ok(None) => false,
                Err(e) => final(args)@ == old(args)@ && (match wasm_alloc {
                    None => e == BridgeError::MissingAllocator,
                    Some(a) => a.fill_failure(RECORD_SIZE as nat, e),
                }),
            },
            self.return_ty() is Some || wasm_alloc is None ==> *final(store) == *old(store),
            wasm_alloc matches Some(a) && !a.allocates_by_size() ==> *final(store) == *old(store)
                && (self.return_ty() is None ==> record is Err),
    {
        match self {
            WasmTy::ByteBuffer | WasmTy::ByteArray | WasmTy::String => {
                WasmSlice::return_or_store_to_arg(args, wasm_alloc, store)
            },
            WasmTy::Slot(SlotType::I32) => i32::return_or_store_to_arg(args, wasm_alloc, store),
            WasmTy::Slot(SlotType::I64) => i64::return_or_store_to_arg(args, wasm_alloc, store),
            WasmTy::Slot(SlotType::F32) => F32::return_or_store_to_arg(args, wasm_alloc, store),
            WasmTy::Slot(SlotType::F64) => F64::return_or_store_to_arg(args, wasm_alloc, store),
            WasmTy::Slot(_) => Ok(None),
        }
    }
}

impl<'j> WasmVal<'j> {
    /// The bytes that the value puts into guest memory: those of a byte array, the UTF-8
    /// encoding of a text, and nothing for a scalar.
    pub open spec fn payload(&self) -> Option<Seq<u8>> {
        match self@ {
            WasmValView::ByteArray(bytes) => Some(bytes),
            WasmValView::String(text) => Some(encode_utf8(text)),
            WasmValView::Val(_) => None,
        }
    }

    /// Place the value at the end of an argument list. A scalar goes into its slot. Bytes
    /// and text are copied into freshly allocated guest memory, and the offset and length of
    /// the range become two slots; the allocation comes back, and it is the host's to free
    /// after the call.
    pub fn store_to_args<'w>(
        self,
        args: &mut Vec<SlotValue>,
        wasm_alloc: Option<&'w WasmAlloc>,
        store: &mut wasmtime::StoreContextMut<JavaState>,
    ) -> (stored: Result<Option<WasmSliceWrapper<'w>>, BridgeError>)
        requires
            self.spec_ty().supported(),
            wasm_alloc matches Some(a) ==> a.bound_to(old(store)),
        ensures
            same_store(old(store), final(store)),
            self@ matches WasmValView::Val(v) ==> (stored matches Ok(None)) && final(args)@ == old(
                args,
            )@.push(v),
            self.payload() matches Some(bytes) ==> match stored {
                Ok(Some(w)) => wasm_alloc == Some(w.allocator()) && final(args)@ == old(args)@
                    + w.spec_wasm_slice().to_args() && w.spec_wasm_slice().spec_length()
                    == bytes.len() && w.spec_wasm_slice().ptr != 0 && w.allocator().spec_read(
                    final(store),
                    w.spec_wasm_slice(),
                ) == Ok::<Seq<u8>, BridgeError>(bytes),
                Ok(None) => false,
                Err(e) => final(args)@ == old(args)@ && (match wasm_alloc {
                    None => e == BridgeError::MissingAllocator,
                    Some(a) => a.copy_failure(old(store), bytes.len(), e),
                }),
            },
            stored matches Err(e) ==> (if wasm_alloc is None {
                e == BridgeError::MissingAllocator
            } else {
                memory_failure(e) || e is GuestTrap
            }),
            self.payload() is None || wasm_alloc is None ==> *final(store) == *old(store),
            wasm_alloc matches Some(a) && !a.allocates_by_size() ==> *final(store) == *old(store)
                && (self.payload() is Some ==> stored is Err),
    {
        match self {
            WasmVal::ByteArray(bytes) => {
                // the module might not have the memory exported
                let wasm_alloc = match wasm_alloc {
                    Some(wasm_alloc) => wasm_alloc,
                    None => {
                        return Err(BridgeError::MissingAllocator);
                    },
                };
                let wasm_slice = wasm_alloc.alloc_bytes(bytes, store)?;

                wasm_slice.wasm_slice().store_to_args(args);
                Ok(Some(wasm_slice))
            },
            WasmVal::String(string) => {
                // the module might not have the memory exported
                let wasm_alloc = match wasm_alloc {
                    Some(wasm_alloc) => wasm_alloc,
                    None => {
                        return Err(BridgeError::MissingAllocator);
                    },
                };
                let wasm_slice = wasm_alloc.alloc_bytes(string.as_bytes(), store)?;

                wasm_slice.wasm_slice().store_to_args(args);
                Ok(Some(wasm_slice))
            },
            WasmVal::Val(val) => {
                args.push(val);
                Ok(None)
            },
        }
    }
}

/// Load the managed object that a call into the guest returned: a scalar from the result
/// slot, bytes and text from the range whose descriptor the guest wrote into the record that
/// was passed by reference. Everything is read before anything is freed; then the record
/// goes back to the guest, and with it the range of the value, which the guest allocated
/// and the host frees after reading. A failure to free is no failure of the load: it is
/// added to `reports`.
pub fn return_or_load_or_from_arg(
    ty: WasmTy,
    ret: Option<&SlotValue>,
    ret_by_ref_ptr: Option<WasmSliceWrapper<'_>>,
    wasm_alloc: Option<&WasmAlloc>,
    store: &mut wasmtime::StoreContextMut<JavaState>,
    reports: &mut Vec<BridgeError>,
) -> (obj: Result<JavaObject, BridgeError>)
    requires
        ret_by_ref_ptr matches Some(w) ==> w.allocator().bound_to(old(store)),
        wasm_alloc matches Some(a) ==> a.bound_to(old(store)),
    ensures
        same_store(old(store), final(store)),
        reports_added(old(reports)@, final(reports)@),
        ret_by_ref_ptr is None ==> final(reports)@ == old(reports)@ && *final(store) == *old(
            store,
        ),
        ty is ByteBuffer ==> obj == Err::<JavaObject, BridgeError>(BridgeError::DirectBufferReturn),
        ty matches WasmTy::Slot(slot) ==> (if !slot.spec_is_scalar() {
            obj == Err::<JavaObject, BridgeError>(BridgeError::UnsupportedReturn { ty: slot })
        } else {
            match spec_scalar_return(slot, deref_opt(ret)) {
                Ok(v) => obj matches Ok(o) && o@ == java_scalar(v),
                Err(e) => obj == Err::<JavaObject, BridgeError>(e),
            }
        }),
        ty is ByteArray || ty is String ==> (match spec_written(
            ret_by_ref_ptr,
            wasm_alloc,
            old(store),
        ) {
            Err(e) => obj == Err::<JavaObject, BridgeError>(e),
            Ok((slice, b)) => obj matches Ok(o) && o@ == spec_object(ty, slice, b) && (ty is String
                && valid_utf8(b) ==> o@ == JavaObjectView::String(decode_utf8(b))),
        }),
{
    match ty {
        WasmTy::ByteBuffer => {
            release(ret_by_ref_ptr, store, reports);
            Err(BridgeError::DirectBufferReturn)
        },
        WasmTy::ByteArray => {
            let loaded = WasmSlice::return_or_load_or_from_args(
                ret,
                ret_by_ref_ptr.as_ref(),
                wasm_alloc,
                store,
            );
            let obj = match loaded {
                Ok(wasm_slice) => {
                    let obj = IntoByteArray(wasm_slice).into_java(wasm_alloc, store);
                    release_value(wasm_alloc, wasm_slice, store, reports);
                    obj
                },
                Err(e) => Err(e),
            };
            release(ret_by_ref_ptr, store, reports);
            obj
        },
        WasmTy::String => {
            let loaded = WasmSlice::return_or_load_or_from_args(
                ret,
                ret_by_ref_ptr.as_ref(),
                wasm_alloc,
                store,
            );
            let obj = match loaded {
                Ok(wasm_slice) => {
                    let obj = IntoString(wasm_slice).into_java(wasm_alloc, store);
                    release_value(wasm_alloc, wasm_slice, store, reports);
                    obj
                },
                Err(e) => Err(e),
            };
            release(ret_by_ref_ptr, store, reports);
            obj
        },
        WasmTy::Slot(slot) => {
            release(ret_by_ref_ptr, store, reports);
            let val = scalar_return(slot, ret);
            match boxed_return(slot, val) {
                Ok(obj) => Ok(obj),
                Err(e) => Err(e),
            }
        },
    }
}

/// The descriptor that the guest wrote into the record passed by reference, and the bytes
/// of its range, as they read at this moment.
pub open spec fn spec_written(
    ret_by_ref_ptr: Option<WasmSliceWrapper<'_>>,
    wasm_alloc: Option<&WasmAlloc>,
    store: &wasmtime::StoreContextMut<JavaState>,
) -> Result<(WasmSlice, Seq<u8>), BridgeError> {
    match ret_by_ref_ptr {
        None => Err(BridgeError::MissingReturnPointer),
        Some(w) => match w.allocator().spec_obj(store, w.spec_wasm_slice().ptr) {
            Err(e) => Err(e),
            Ok(slice) => match spec_range(wasm_alloc, store, slice) {
                Err(e) => Err(e),
                Ok(bytes) => Ok((slice, bytes)),
            },
        },
    }
}

/// Frees the range of a value that the guest returned by reference: the guest allocated it,
/// and the host frees it once it is read. A failure to free is added to `reports`.
fn release_value(
    wasm_alloc: Option<&WasmAlloc>,
    wasm_slice: WasmSlice,
    store: &mut wasmtime::StoreContextMut<JavaState>,
    reports: &mut Vec<BridgeError>,
)
    requires
        wasm_alloc matches Some(a) ==> a.bound_to(old(store)),
    ensures
        same_store(old(store), final(store)),
        reports_added(old(reports)@, final(reports)@),
        wasm_alloc is None ==> final(reports)@ == old(reports)@ && *final(store) == *old(store),
{
    match wasm_alloc {
        Some(wasm_alloc) => release(
            Some(WasmSliceWrapper::new(wasm_alloc, wasm_slice)),
            store,
            reports,
        ),
        None => {},
    }
}

/// The managed object that boxes a scalar result of slot type `slot`.
fn boxed_return(slot: SlotType, val: Result<SlotValue, BridgeError>) -> (obj: Result<
    JavaObject,
    BridgeError,
>)
    requires
        val matches Ok(v) ==> v.spec_ty() == slot,
    ensures
        !slot.spec_is_scalar() ==> obj == Err::<JavaObject, BridgeError>(
            BridgeError::UnsupportedReturn { ty: slot },
        ),
        slot.spec_is_scalar() ==> match val {
            Ok(v) => obj matches Ok(o) && o@ == java_scalar(v),
            Err(e) => obj == Err::<JavaObject, BridgeError>(e),
        },
{
    if !slot.is_scalar() {
        return Err(BridgeError::UnsupportedReturn { ty: slot });
    }
    match boxed(val?) {
        Some(obj) => Ok(obj),
        None => Err(BridgeError::UnsupportedReturn { ty: slot }),
    }
}

} // verus!
