//! What can go wrong while values cross between the managed runtime and the guest.

use vstd::prelude::*;
use vstd::string::StringExecFns;
use crate::val::{SlotType, SlotValue};

verus! {

/// A declared kind sequence disagrees with a function's real call-slot types.
#[derive(Clone, Copy, Debug, PartialEq, Eq)]
pub struct SignatureMismatch {
    /// Position of the first slot that disagrees, counted over the whole slot list.
    pub index: usize,
    /// The slot type the declared kinds ask for at that position.
    pub expected: SlotType,
    /// The slot type found there, or `None` where the list ended early.
    pub actual: Option<SlotType>,
}

/// Why guest memory could not be had or reached.
#[derive(Clone, Copy, Debug, PartialEq, Eq)]
pub enum AllocationFailure {
    /// The guest's allocation routine answered 0: it is out of memory.
    OutOfMemory { size: u32 },
    /// The guest's allocation routine does not take a size and answer with an offset, each
    /// a 32-bit integer: it is of another type, or its answer was something else.
    NotAnOffset,
    /// More bytes were asked for than a 32-bit length can say.
    TooLarge { bytes: usize },
    /// The range does not lie inside the guest's memory as it is now.
    OutOfBounds { offset: u32, length: u32, memory: usize },
    /// The guest's deallocation routine is not one that takes an offset and a length and
    /// returns nothing.
    CannotFree,
}

/// Every failure of the bridge. Each one ends the call it occurred in and nothing else: the
/// store and all handles stay usable.
#[derive(Clone, Debug, PartialEq, Eq)]
pub enum BridgeError {
    /// The declared kinds disagree with the real call-slot types.
    SignatureMismatch(SignatureMismatch),
    /// A managed class has no kind; `for_return` tells the position it was declared in.
    UnsupportedType { name: String, for_return: bool },
    /// A managed object is of no class that has a kind.
    UnsupportedObject { name: String },
    /// A callback returned a primitive that has no kind.
    UnsupportedValue { name: String },
    /// A kind that can only be passed was declared as a return.
    DirectBufferReturn,
    /// A call slot of a type that has no kind was declared as a return.
    UnsupportedReturn { ty: SlotType },
    /// A call slot of a type that has no kind was declared as the parameter at `position`.
    UnsupportedParameter { position: usize, ty: SlotType },
    /// A null parameter class was declared.
    NullParameter,
    /// Guest memory could not be had or reached.
    AllocationFailure(AllocationFailure),
    /// Bytes have to cross, and the guest exports no memory or no allocation routines.
    MissingAllocator,
    /// The slot list ended where a slot of type `expected` should stand.
    MissingArgument { expected: SlotType },
    /// A slot holds a value of another type than the declared kind asks for.
    IncorrectArgument { expected: SlotType, found: SlotValue },
    /// A scalar return was declared and the call produced no value.
    MissingReturn,
    /// The result list is not what the declared return asks for: `declared` is the slot
    /// type of a scalar return, and `None` for a return that takes no result slot, which is
    /// no return at all or a return by reference; `actual` is the first real result type,
    /// and `None` where the function has no result.
    ReturnMismatch { declared: Option<SlotType>, actual: Option<SlotType> },
    /// A return by reference was declared and no record was passed for it.
    MissingReturnPointer,
    /// A callback returned bytes where the guest expects a scalar in the result slot.
    UnexpectedReturn,
    /// The guest function produced more than one result.
    MultipleReturns { count: usize },
    /// A managed callback threw; the text is the rendered exception.
    ManagedException(String),
    /// Guest execution faulted; the text is the engine's report.
    GuestTrap(String),
}

/// One decimal digit.
pub open spec fn digit(d: nat) -> Seq<char>
    recommends
        d < 10,
{
    if d == 0 {
        "0"@
    } else if d == 1 {
        "1"@
    } else if d == 2 {
        "2"@
    } else if d == 3 {
        "3"@
    } else if d == 4 {
        "4"@
    } else if d == 5 {
        "5"@
    } else if d == 6 {
        "6"@
    } else if d == 7 {
        "7"@
    } else if d == 8 {
        "8"@
    } else {
        "9"@
    }
}

/// A number in decimal digits, without leading zeros.
pub open spec fn decimal(n: nat) -> Seq<char>
    decreases n,
{
    if n < 10 {
        digit(n)
    } else {
        decimal(n / 10) + digit(n % 10)
    }
}

/// Appends a number in decimal digits to a text.
pub fn push_decimal(text: &mut String, n: u64)
    ensures
        final(text)@ == old(text)@ + decimal(n as nat),
    decreases n,
{
    if n >= 10 {
        push_decimal(text, n / 10);
    }
    let d = n % 10;
    if d == 0 {
        text.append("0");
    } else if d == 1 {
        text.append("1");
    } else if d == 2 {
        text.append("2");
    } else if d == 3 {
        text.append("3");
    } else if d == 4 {
        text.append("4");
    } else if d == 5 {
        text.append("5");
    } else if d == 6 {
        text.append("6");
    } else if d == 7 {
        text.append("7");
    } else if d == 8 {
        text.append("8");
    } else {
        text.append("9");
    }
    assert(text@ =~= old(text)@ + decimal(n as nat));
}

/// The name of a slot type that may be missing.
pub open spec fn spec_found(actual: Option<SlotType>) -> Seq<char> {
    match actual {
        Some(ty) => ty.spec_name(),
        None => "nothing"@,
    }
}

impl SignatureMismatch {
    /// The mismatch in words: the index of the slot, the type expected there and the type
    /// found.
    pub open spec fn spec_message(&self) -> Seq<char> {
        "Expected "@ + self.expected.spec_name() + " for slot "@ + decimal(self.index as nat)
            + ", got "@ + spec_found(self.actual)
    }

    /// The mismatch in words: the index of the slot, the type expected there and the type
    /// found.
    pub fn message(&self) -> (text: String)
        ensures
            text@ == self.spec_message(),
    {
        let mut text = String::from_str("Expected ");
        text.append(self.expected.name());
        text.append(" for slot ");
        push_decimal(&mut text, self.index as u64);
        text.append(", got ");
        match self.actual {
            Some(ty) => text.append(ty.name()),
            None => text.append("nothing"),
        }
        assert(text@ =~= self.spec_message());
        text
    }
}

impl AllocationFailure {
    /// The failure in words.
    pub open spec fn spec_message(&self) -> Seq<char> {
        match *self {
            AllocationFailure::OutOfMemory { size } => "guest could not allocate "@ + decimal(
                size as nat,
            ) + " bytes"@,
            AllocationFailure::NotAnOffset => "i32 was not returned from the alloc"@,
            AllocationFailure::TooLarge { bytes } => decimal(bytes as nat)
                + " bytes are more than a guest can address"@,
            AllocationFailure::OutOfBounds { offset, length, memory } => "memory is "@ + decimal(
                memory as nat,
            ) + " need "@ + decimal(length as nat) + " at "@ + decimal(offset as nat),
            AllocationFailure::CannotFree => "the dealloc does not take an offset and a length"@,
        }
    }

    /// The failure in words.
    pub fn message(&self) -> (text: String)
        ensures
            text@ == self.spec_message(),
    {
        let mut text = String::new();
        match self {
            AllocationFailure::OutOfMemory { size } => {
                text.append("guest could not allocate ");
                push_decimal(&mut text, *size as u64);
                text.append(" bytes");
            },
            AllocationFailure::NotAnOffset => {
                text.append("i32 was not returned from the alloc");
            },
            AllocationFailure::TooLarge { bytes } => {
                push_decimal(&mut text, *bytes as u64);
                text.append(" bytes are more than a guest can address");
            },
            AllocationFailure::OutOfBounds { offset, length, memory } => {
                text.append("memory is ");
                push_decimal(&mut text, *memory as u64);
                text.append(" need ");
                push_decimal(&mut text, *length as u64);
                text.append(" at ");
                push_decimal(&mut text, *offset as u64);
            },
            AllocationFailure::CannotFree => {
                text.append("the dealloc does not take an offset and a length");
            },
        }
        assert(text@ =~= self.spec_message());
        text
    }
}

impl BridgeError {
    /// The diagnostic message of the failure. A trap and an exception carry their own text.
    pub open spec fn spec_message(&self) -> Seq<char> {
        match *self {
            BridgeError::SignatureMismatch(mismatch) => mismatch.spec_message(),
            BridgeError::UnsupportedType { name, for_return } => if for_return {
                "Unsupported Java class as result: "@ + name@
            } else {
                "Unsupported Java class as argument: "@ + name@
            },
            BridgeError::UnsupportedObject { name } => "Unsupported Java object: "@ + name@,
            BridgeError::UnsupportedValue { name } => "Unsupported return type: "@ + name@,
            BridgeError::DirectBufferReturn => "ByteBuffer unsupported as Java return type"@,
            BridgeError::UnsupportedReturn { ty } => ty.spec_name()
                + " unsupported as Java return type"@,
            BridgeError::UnsupportedParameter { position, ty } => ty.spec_name()
                + " unsupported as Java parameter type at position "@ + decimal(position as nat),
            BridgeError::NullParameter => "Null parameters not allowed"@,
            BridgeError::AllocationFailure(failure) => failure.spec_message(),
            BridgeError::MissingAllocator => "no memory or allocator supplied from module"@,
            BridgeError::MissingArgument { expected } => "next argument missing, expected: "@
                + expected.spec_name(),
            BridgeError::IncorrectArgument { expected, found } =>
                "incorrect value for argument, expected: "@ + expected.spec_name() + ", got: "@
                + found.spec_ty().spec_name(),
            BridgeError::MissingReturn => "Return Val not present"@,
            BridgeError::ReturnMismatch { declared, actual } => "Expected "@ + spec_found(declared)
                + " but was "@ + spec_found(actual),
            BridgeError::MissingReturnPointer => "expected return by ref argument pointer"@,
            BridgeError::UnexpectedReturn =>
                "Unexpected WASM return value, should have been return by reference"@,
            BridgeError::MultipleReturns { count } =>
                "multiple return values not supported, expected 0 or 1 found: "@ + decimal(
                    count as nat,
                ),
            BridgeError::ManagedException(text) => text@,
            BridgeError::GuestTrap(text) => text@,
        }
    }

    /// The diagnostic message of the failure, for the one exception type that every failure
    /// surfaces as in the managed runtime.
    pub fn message(&self) -> (text: String)
        ensures
            text@ == self.spec_message(),
    {
        let mut text = String::new();
        match self {
            BridgeError::SignatureMismatch(mismatch) => {
                return mismatch.message();
            },
            BridgeError::UnsupportedType { name, for_return } => {
                if *for_return {
                    text.append("Unsupported Java class as result: ");
                } else {
                    text.append("Unsupported Java class as argument: ");
                }
                text.append(name.as_str());
            },
            BridgeError::UnsupportedObject { name } => {
                text.append("Unsupported Java object: ");
                text.append(name.as_str());
            },
            BridgeError::UnsupportedValue { name } => {
                text.append("Unsupported return type: ");
                text.append(name.as_str());
            },
            BridgeError::DirectBufferReturn => {
                text.append("ByteBuffer unsupported as Java return type");
            },
            BridgeError::UnsupportedReturn { ty } => {
                text.append(ty.name());
                text.append(" unsupported as Java return type");
            },
            BridgeError::UnsupportedParameter { position, ty } => {
                text.append(ty.name());
                text.append(" unsupported as Java parameter type at position ");
                push_decimal(&mut text, *position as u64);
            },
            BridgeError::NullParameter => {
                text.append("Null parameters not allowed");
            },
            BridgeError::AllocationFailure(failure) => {
                return failure.message();
            },
            BridgeError::MissingAllocator => {
                text.append("no memory or allocator supplied from module");
            },
            BridgeError::MissingArgument { expected } => {
                text.append("next argument missing, expected: ");
                text.append(expected.name());
            },
            BridgeError::IncorrectArgument { expected, found } => {
                text.append("incorrect value for argument, expected: ");
                text.append(expected.name());
                text.append(", got: ");
                text.append(found.ty().name());
            },
            BridgeError::MissingReturn => {
                text.append("Return Val not present");
            },
            BridgeError::ReturnMismatch { declared, actual } => {
                text.append("Expected ");
                match declared {
                    Some(ty) => text.append(ty.name()),
                    None => text.append("nothing"),
                }
                text.append(" but was ");
                match actual {
                    Some(ty) => text.append(ty.name()),
                    None => text.append("nothing"),
                }
            },
            BridgeError::MissingReturnPointer => {
                text.append("expected return by ref argument pointer");
            },
            BridgeError::UnexpectedReturn => {
                text.append("Unexpected WASM return value, should have been return by reference");
            },
            BridgeError::MultipleReturns { count } => {
                text.append("multiple return values not supported, expected 0 or 1 found: ");
                push_decimal(&mut text, *count as u64);
            },
            BridgeError::ManagedException(message) => {
                text.append(message.as_str());
            },
            BridgeError::GuestTrap(message) => {
                text.append(message.as_str());
            },
        }
        assert(text@ =~= self.spec_message());
        text
    }
}

} // verus!
