//! Call slots: the fixed-width value positions of a guest function's parameter and result lists.

use vstd::prelude::*;

verus! {

/// The type of one call slot.
///
/// The four scalar types are the only ones the bridge marshals. Vectors and references can
/// occur in a guest function's real signature, where they are reported and never decoded.
#[derive(Clone, Copy, Debug, PartialEq, Eq, Structural)]
pub enum SlotType {
    I32,
    I64,
    F32,
    F64,
    V128,
    Ref,
}

impl SlotType {
    /// The name of the type, as the guest's text format writes it.
    pub open spec fn spec_name(&self) -> Seq<char> {
        match *self {
            SlotType::I32 => "i32"@,
            SlotType::I64 => "i64"@,
            SlotType::F32 => "f32"@,
            SlotType::F64 => "f64"@,
            SlotType::V128 => "v128"@,
            SlotType::Ref => "ref"@,
        }
    }

    /// The name of the type, as the guest's text format writes it.
    pub fn name(&self) -> (name: &'static str)
        ensures
            name@ == self.spec_name(),
    {
        match self {
            SlotType::I32 => "i32",
            SlotType::I64 => "i64",
            SlotType::F32 => "f32",
            SlotType::F64 => "f64",
            SlotType::V128 => "v128",
            SlotType::Ref => "ref",
        }
    }

    /// Whether this is one of the four fixed-width numeric types.
    pub open spec fn spec_is_scalar(self) -> bool {
        self is I32 || self is I64 || self is F32 || self is F64
    }

    /// Whether this is one of the four fixed-width numeric types.
    #[verifier::when_used_as_spec(spec_is_scalar)]
    pub fn is_scalar(self) -> (scalar: bool)
        ensures
            scalar == self.spec_is_scalar(),
    {
        match self {
            SlotType::I32 | SlotType::I64 | SlotType::F32 | SlotType::F64 => true,
            SlotType::V128 | SlotType::Ref => false,
        }
    }
}

/// The value held by one call slot.
///
/// Floating-point slots hold the raw bits of the number. A reference slot is carried by kind
/// only: the bridge never follows a reference.
#[derive(Clone, Copy, Debug, PartialEq, Eq, Structural)]
pub enum SlotValue {
    I32(i32),
    I64(i64),
    F32(u32),
    F64(u64),
    V128(u128),
    Ref,
}

impl SlotValue {
    /// The slot type of this value.
    pub open spec fn spec_ty(&self) -> SlotType {
        match *self {
            SlotValue::I32(_) => SlotType::I32,
            SlotValue::I64(_) => SlotType::I64,
            SlotValue::F32(_) => SlotType::F32,
            SlotValue::F64(_) => SlotType::F64,
            SlotValue::V128(_) => SlotType::V128,
            SlotValue::Ref => SlotType::Ref,
        }
    }

    /// The slot type of this value.
    #[verifier::when_used_as_spec(spec_ty)]
    pub fn ty(&self) -> (ty: SlotType)
        ensures
            ty == self.spec_ty(),
    {
        match self {
            SlotValue::I32(_) => SlotType::I32,
            SlotValue::I64(_) => SlotType::I64,
            SlotValue::F32(_) => SlotType::F32,
            SlotValue::F64(_) => SlotType::F64,
            SlotValue::V128(_) => SlotType::V128,
            SlotValue::Ref => SlotType::Ref,
        }
    }

    /// The null reference, the placeholder of a slot that holds no number.
    pub fn null() -> (val: SlotValue)
        ensures
            val == SlotValue::Ref,
    {
        SlotValue::Ref
    }

    /// The 32-bit integer in this slot, if it holds one.
    pub fn i32(&self) -> (v: Option<i32>)
        ensures
            v == (if let SlotValue::I32(x) = *self { Some(x) } else { None::<i32> }),
    {
        match self {
            SlotValue::I32(x) => Some(*x),
            _ => None,
        }
    }

    /// The 64-bit integer in this slot, if it holds one.
    pub fn i64(&self) -> (v: Option<i64>)
        ensures
            v == (if let SlotValue::I64(x) = *self { Some(x) } else { None::<i64> }),
    {
        match self {
            SlotValue::I64(x) => Some(*x),
            _ => None,
        }
    }

    /// The bits of the 32-bit float in this slot, if it holds one.
    pub fn f32_bits(&self) -> (v: Option<u32>)
        ensures
            v == (if let SlotValue::F32(x) = *self { Some(x) } else { None::<u32> }),
    {
        match self {
            SlotValue::F32(x) => Some(*x),
            _ => None,
        }
    }

    /// The bits of the 64-bit float in this slot, if it holds one.
    pub fn f64_bits(&self) -> (v: Option<u64>)
        ensures
            v == (if let SlotValue::F64(x) = *self { Some(x) } else { None::<u64> }),
    {
        match self {
            SlotValue::F64(x) => Some(*x),
            _ => None,
        }
    }
}

/// The slot types of a list of slot values.
pub open spec fn slot_tys(vals: Seq<SlotValue>) -> Seq<SlotType> {
    vals.map_values(|val: SlotValue| val.spec_ty())
}

/// A cursor over a list of call slots, or of their types: each call takes the next one.
pub struct Slots<'a, T> {
    items: &'a [T],
    taken: usize,
}

impl<'a, T> Slots<'a, T> {
    #[verifier::type_invariant]
    spec fn within(self) -> bool {
        self.taken <= self.items@.len()
    }
}

impl<'a, T: Copy> Slots<'a, T> {
    /// The slots not taken yet.
    pub closed spec fn rest(&self) -> Seq<T> {
        self.items@.skip(self.taken as int)
    }

    /// How many slots were taken.
    pub closed spec fn spec_position(&self) -> usize {
        self.taken
    }

    /// A cursor at the start of `items`.
    pub fn new(items: &'a [T]) -> (slots: Self)
        ensures
            slots.rest() == items@,
            slots.spec_position() == 0,
    {
        Slots { items, taken: 0 }
    }

    /// How many slots were taken.
    #[verifier::when_used_as_spec(spec_position)]
    pub fn position(&self) -> (position: usize)
        ensures
            position == self.spec_position(),
    {
        self.taken
    }

    /// Takes the next slot, if one is left.
    pub fn next(&mut self) -> (item: Option<T>)
        ensures
            old(self).rest().len() == 0 ==> item is None && final(self).rest() == old(self).rest()
                && final(self).spec_position() == old(self).spec_position(),
            old(self).rest().len() > 0 ==> item == Some(old(self).rest()[0]) && final(self).rest()
                == old(self).rest().skip(1) && final(self).spec_position() == old(
                self,
            ).spec_position() + 1,
    {
        proof {
            use_type_invariant(&*self);
        }
        if self.taken < self.items.len() {
            let item = self.items[self.taken];
            self.taken = self.taken + 1;
            Some(item)
        } else {
            None
        }
    }
}

} // verus!
