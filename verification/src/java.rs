//! What the managed runtime hands over, as plain values.
//!
//! The bridge never touches a managed object. Whoever talks to the managed runtime describes
//! each class, object and thrown exception in one of these types, and turns the objects the
//! bridge answers with back into managed ones.

use vstd::prelude::*;
use crate::exports::WasmSlice;

verus! {

/// A managed class, by what can be assigned to it.
#[derive(Clone, Debug, PartialEq, Eq)]
pub enum JavaClass {
    /// No class at all: a null reference.
    Null,
    /// `java.lang.Long`.
    Long,
    /// The primitive `long`.
    LongPrimitive,
    /// `java.lang.Integer`.
    Integer,
    /// The primitive `int`.
    IntPrimitive,
    /// `java.lang.Double`.
    Double,
    /// The primitive `double`.
    DoublePrimitive,
    /// `java.lang.Float`.
    Float,
    /// The primitive `float`.
    FloatPrimitive,
    /// `java.nio.ByteBuffer` or a class derived from it, with its canonical name.
    ByteBuffer { name: String },
    /// `byte[]`.
    ByteArray,
    /// `java.lang.String`.
    String,
    /// `java.lang.Void`.
    Void,
    /// The primitive `void`.
    VoidPrimitive,
    /// Any other class, with its canonical name.
    Other { name: String },
}

/// A managed object that is not null, with the value it boxes. Floating-point numbers are
/// held by their bits.
#[derive(Clone, Debug, PartialEq, Eq)]
pub enum JavaObject {
    /// A `java.lang.Long`.
    Long(i64),
    /// A `java.lang.Integer`.
    Integer(i32),
    /// A `java.lang.Double`, by its bits.
    Double(u64),
    /// A `java.lang.Float`, by its bits.
    Float(u32),
    /// A `byte[]`, copied.
    ByteArray(Vec<u8>),
    /// A `java.lang.String`.
    String(String),
    /// A direct `java.nio.ByteBuffer` over a range of guest memory: a view, not a copy. The
    /// range was inside the memory when the bridge made the object.
    ByteBuffer(WasmSlice),
    /// An object of any other class, with the canonical name of the class.
    Other { name: String },
}

/// The mathematical content of a [`JavaObject`].
pub enum JavaObjectView {
    Long(i64),
    Integer(i32),
    Double(u64),
    Float(u32),
    ByteArray(Seq<u8>),
    String(Seq<char>),
    ByteBuffer(WasmSlice),
    Other { name: Seq<char> },
}

impl View for JavaObject {
    type V = JavaObjectView;

    open spec fn view(&self) -> JavaObjectView {
        match *self {
            JavaObject::Long(v) => JavaObjectView::Long(v),
            JavaObject::Integer(v) => JavaObjectView::Integer(v),
            JavaObject::Double(v) => JavaObjectView::Double(v),
            JavaObject::Float(v) => JavaObjectView::Float(v),
            JavaObject::ByteArray(bytes) => JavaObjectView::ByteArray(bytes@),
            JavaObject::String(text) => JavaObjectView::String(text@),
            JavaObject::ByteBuffer(slice) => JavaObjectView::ByteBuffer(slice),
            JavaObject::Other { name } => JavaObjectView::Other { name: name@ },
        }
    }
}

/// What the invocation of a managed method returned. Floating-point numbers are held by
/// their bits.
#[derive(Clone, Debug, PartialEq, Eq)]
pub enum JavaValue {
    /// An object, or `None` for the null reference.
    Object(Option<JavaObject>),
    /// A primitive `long`.
    Long(i64),
    /// A primitive `int`.
    Int(i32),
    /// A primitive `double`, by its bits.
    Double(u64),
    /// A primitive `float`, by its bits.
    Float(u32),
    /// A primitive of any other type, with the name of the type.
    Other { name: String },
}

} // verus!
