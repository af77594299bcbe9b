//! The kinds of value that cross the boundary, and how each is laid out in call slots.

use vstd::prelude::*;
use crate::engine::same_store;
use crate::error::{AllocationFailure, BridgeError, SignatureMismatch};
use crate::exports::WasmSlice;
use crate::ty::wasm_alloc::{WasmAlloc, WasmSliceWrapper, RECORD_SIZE};
use crate::val::{SlotType, SlotValue, Slots};
use crate::wasm_state::JavaState;

verus! {

/// The first position at which the slot types `actual` depart from `expected`: a slot of
/// another type, or the end of `actual`. `None` when `actual` starts with `expected`.
pub open spec fn first_mismatch(expected: Seq<SlotType>, actual: Seq<SlotType>) -> Option<int>
    decreases expected.len(),
{
    if expected.len() == 0 {
        None
    } else if actual.len() == 0 || actual[0] != expected[0] {
        Some(0int)
    } else {
        match first_mismatch(expected.skip(1), actual.skip(1)) {
            Some(i) => Some(i + 1),
            None => None,
        }
    }
}

/// The verdict on slot types `actual`, which stand at `position` of a function's slot list,
/// against the `expected` ones: the first mismatch, with its index in the whole list.
pub open spec fn spec_matches(
    expected: Seq<SlotType>,
    actual: Seq<SlotType>,
    position: int,
) -> Result<(), SignatureMismatch> {
    match first_mismatch(expected, actual) {
        None => Ok(()),
        Some(i) => Err(
            SignatureMismatch {
                index: (position + i) as usize,
                expected: expected[i],
                actual: if i < actual.len() {
                    Some(actual[i])
                } else {
                    None
                },
            },
        ),
    }
}

/// How many slot types a match takes: all that are expected, or those up to and including the
/// one that disagrees.
pub open spec fn taken_by_match(expected: Seq<SlotType>, actual: Seq<SlotType>) -> int {
    match first_mismatch(expected, actual) {
        None => expected.len() as int,
        Some(i) => if i < actual.len() {
            i + 1
        } else {
            i
        },
    }
}

/// A mismatch lies inside the expected list, and everything before it agrees.
pub proof fn lemma_first_mismatch(expected: Seq<SlotType>, actual: Seq<SlotType>)
    ensures
        first_mismatch(expected, actual) matches Some(i) ==> 0 <= i < expected.len() && i
            <= actual.len() && (i < actual.len() ==> actual[i] != expected[i]) && (forall|j: int|
            0 <= j < i ==> actual[j] == expected[j]),
        first_mismatch(expected, actual) is None ==> expected.len() <= actual.len() && (forall|
            j: int,
        |
            0 <= j < expected.len() ==> actual[j] == expected[j]),
    decreases expected.len(),
{
    if expected.len() != 0 && actual.len() != 0 && actual[0] == expected[0] {
        lemma_first_mismatch(expected.skip(1), actual.skip(1));
        match first_mismatch(expected.skip(1), actual.skip(1)) {
            Some(i) => {
                assert forall|j: int| 0 <= j < i + 1 implies actual[j] == expected[j] by {
                    if j > 0 {
                        assert(actual.skip(1)[j - 1] == expected.skip(1)[j - 1]);
                    }
                }
            },
            None => {
                assert forall|j: int| 0 <= j < expected.len() implies actual[j] == expected[j] by {
                    if j > 0 {
                        assert(actual.skip(1)[j - 1] == expected.skip(1)[j - 1]);
                    }
                }
            },
        }
    }
}

/// Matching kind after kind is matching the whole list: the first mismatch of `head + tail`
/// is that of `head`, or else that of `tail` against what `head` left over.
pub proof fn lemma_first_mismatch_concat(
    head: Seq<SlotType>,
    tail: Seq<SlotType>,
    actual: Seq<SlotType>,
)
    ensures
        first_mismatch(head + tail, actual) == match first_mismatch(head, actual) {
            Some(i) => Some(i),
            None => match first_mismatch(tail, actual.skip(head.len() as int)) {
                Some(i) => Some(head.len() + i),
                None => None,
            },
        },
    decreases head.len(),
{
    if head.len() == 0 {
        assert(actual.skip(0) =~= actual);
    } else {
        assert((head + tail).skip(1) =~= head.skip(1) + tail);
        if actual.len() != 0 && actual[0] == head[0] {
            lemma_first_mismatch_concat(head.skip(1), tail, actual.skip(1));
            lemma_first_mismatch(head.skip(1), actual.skip(1));
            if first_mismatch(head.skip(1), actual.skip(1)) is None {
                assert(actual.skip(1).skip(head.skip(1).len() as int) =~= actual.skip(
                    head.len() as int,
                ));
            }
        }
    }
}

/// Takes the next slot type and holds it against `expected`.
pub fn expect_ty(expected: SlotType, tys: &mut Slots<SlotType>) -> (matched: Result<
    (),
    SignatureMismatch,
>)
    ensures
        matched == spec_matches(seq![expected], old(tys).rest(), old(tys).spec_position() as int),
        final(tys).rest() == old(tys).rest().skip(taken_by_match(seq![expected], old(tys).rest())),
        final(tys).spec_position() == old(tys).spec_position() + taken_by_match(
            seq![expected],
            old(tys).rest(),
        ),
{
    let index = tys.position();
    let next = tys.next();
    proof {
        let expected_tys = seq![expected];
        assert(first_mismatch(expected_tys.skip(1), old(tys).rest().skip(1)) is None);
    }
    match next {
        Some(actual) => {
            if actual == expected {
                Ok(())
            } else {
                Err(SignatureMismatch { index, expected, actual: Some(actual) })
            }
        },
        None => Err(SignatureMismatch { index, expected, actual: None }),
    }
}

/// What taking one slot for a scalar of type `expected` gives: the slot, or why not.
pub open spec fn spec_take_scalar(expected: SlotType, args: Seq<SlotValue>) -> Result<
    SlotValue,
    BridgeError,
> {
    if args.len() == 0 {
        Err(BridgeError::MissingArgument { expected })
    } else if args[0].spec_ty() == expected {
        Ok(args[0])
    } else {
        Err(BridgeError::IncorrectArgument { expected, found: args[0] })
    }
}

/// How many slots taking one scalar consumes.
pub open spec fn scalar_taken(args: Seq<SlotValue>) -> nat {
    if args.len() == 0 {
        0
    } else {
        1
    }
}

/// Takes the next slot for a scalar of type `expected`.
pub fn take_scalar(expected: SlotType, args: &mut Slots<SlotValue>) -> (taken: Result<
    SlotValue,
    BridgeError,
>)
    ensures
        taken == spec_take_scalar(expected, old(args).rest()),
        final(args).rest() == old(args).rest().skip(scalar_taken(old(args).rest()) as int),
        final(args).spec_position() == old(args).spec_position() + scalar_taken(old(args).rest()),
{
    match args.next() {
        Some(val) => {
            if val.ty() == expected {
                Ok(val)
            } else {
                Err(BridgeError::IncorrectArgument { expected, found: val })
            }
        },
        None => Err(BridgeError::MissingArgument { expected }),
    }
}

/// A value with a fixed layout in call slots.
pub trait Abi: Sized + Copy {
    /// The slot types of one value in argument position.
    spec fn arg_tys() -> Seq<SlotType>;

    /// The slots that carry this value in argument position.
    spec fn to_args(self) -> Seq<SlotValue>;

    /// The value that the slots at the front of `args` carry, or why they carry none.
    spec fn from_args(args: Seq<SlotValue>) -> Result<Self, BridgeError>;

    /// How many slots of `args` decoding takes.
    spec fn args_taken(args: Seq<SlotValue>) -> nat;

    /// Decoding gives back what was encoded, whatever follows, and takes exactly the
    /// encoded slots, whose types are those of the kind.
    proof fn lemma_args_roundtrip(self, rest: Seq<SlotValue>)
        ensures
            self.to_args().len() == Self::arg_tys().len(),
            forall|i: int|
                0 <= i < self.to_args().len() ==> (#[trigger] self.to_args()[i]).spec_ty()
                    == Self::arg_tys()[i],
            Self::from_args(self.to_args() + rest) == Ok::<Self, BridgeError>(self),
            Self::args_taken(self.to_args() + rest) == Self::arg_tys().len(),
    ;

    /// Place the slot types of the kind at the end of a type list.
    fn push_arg_tys(args: &mut Vec<SlotType>)
        ensures
            final(args)@ == old(args)@ + Self::arg_tys(),
    ;

    /// Place the value at the end of an argument list.
    fn store_to_args(self, args: &mut Vec<SlotValue>)
        ensures
            final(args)@ == old(args)@ + self.to_args(),
    ;

    /// Load a value from the next slots of an argument list.
    fn load_from_args(args: &mut Slots<SlotValue>) -> (loaded: Result<Self, BridgeError>)
        ensures
            loaded == Self::from_args(old(args).rest()),
            final(args).rest() == old(args).rest().skip(Self::args_taken(old(args).rest()) as int),
            final(args).spec_position() == old(args).spec_position() + Self::args_taken(
                old(args).rest(),
            ),
    ;

    /// Hold the next slot types of a function's real parameter list against the kind.
    fn matches_arg_tys(tys: &mut Slots<SlotType>) -> (matched: Result<(), SignatureMismatch>)
        ensures
            matched == spec_matches(
                Self::arg_tys(),
                old(tys).rest(),
                old(tys).spec_position() as int,
            ),
            final(tys).rest() == old(tys).rest().skip(
                taken_by_match(Self::arg_tys(), old(tys).rest()),
            ),
            final(tys).spec_position() == old(tys).spec_position() + taken_by_match(
                Self::arg_tys(),
                old(tys).rest(),
            ),
    ;
}

/// The bits of a 32-bit floating-point number.
#[derive(Clone, Copy, Debug, PartialEq, Eq, Structural)]
pub struct F32(pub u32);

/// The bits of a 64-bit floating-point number.
#[derive(Clone, Copy, Debug, PartialEq, Eq, Structural)]
pub struct F64(pub u64);

impl Abi for i32 {
    open spec fn arg_tys() -> Seq<SlotType> {
        seq![SlotType::I32]
    }

    open spec fn to_args(self) -> Seq<SlotValue> {
        seq![SlotValue::I32(self)]
    }

    open spec fn from_args(args: Seq<SlotValue>) -> Result<Self, BridgeError> {
        match spec_take_scalar(SlotType::I32, args) {
            Ok(val) => Ok(val->I32_0),
            Err(e) => Err(e),
        }
    }

    open spec fn args_taken(args: Seq<SlotValue>) -> nat {
        scalar_taken(args)
    }

    proof fn lemma_args_roundtrip(self, rest: Seq<SlotValue>) {
    }

    fn push_arg_tys(args: &mut Vec<SlotType>) {
        args.push(SlotType::I32);
    }

    fn store_to_args(self, args: &mut Vec<SlotValue>) {
        args.push(SlotValue::I32(self));
    }

    fn load_from_args(args: &mut Slots<SlotValue>) -> (loaded: Result<Self, BridgeError>) {
        let val = take_scalar(SlotType::I32, args)?;
        match val {
            SlotValue::I32(v) => Ok(v),
            other => Err(BridgeError::IncorrectArgument { expected: SlotType::I32, found: other }),
        }
    }

    fn matches_arg_tys(tys: &mut Slots<SlotType>) -> (matched: Result<(), SignatureMismatch>) {
        expect_ty(SlotType::I32, tys)
    }
}

impl Abi for i64 {
    open spec fn arg_tys() -> Seq<SlotType> {
        seq![SlotType::I64]
    }

    open spec fn to_args(self) -> Seq<SlotValue> {
        seq![SlotValue::I64(self)]
    }

    open spec fn from_args(args: Seq<SlotValue>) -> Result<Self, BridgeError> {
        match spec_take_scalar(SlotType::I64, args) {
            Ok(val) => Ok(val->I64_0),
            Err(e) => Err(e),
        }
    }

    open spec fn args_taken(args: Seq<SlotValue>) -> nat {
        scalar_taken(args)
    }

    proof fn lemma_args_roundtrip(self, rest: Seq<SlotValue>) {
    }

    fn push_arg_tys(args: &mut Vec<SlotType>) {
        args.push(SlotType::I64);
    }

    fn store_to_args(self, args: &mut Vec<SlotValue>) {
        args.push(SlotValue::I64(self));
    }

    fn load_from_args(args: &mut Slots<SlotValue>) -> (loaded: Result<Self, BridgeError>) {
        let val = take_scalar(SlotType::I64, args)?;
        match val {
            SlotValue::I64(v) => Ok(v),
            other => Err(BridgeError::IncorrectArgument { expected: SlotType::I64, found: other }),
        }
    }

    fn matches_arg_tys(tys: &mut Slots<SlotType>) -> (matched: Result<(), SignatureMismatch>) {
        expect_ty(SlotType::I64, tys)
    }
}

impl Abi for F32 {
    open spec fn arg_tys() -> Seq<SlotType> {
        seq![SlotType::F32]
    }

    open spec fn to_args(self) -> Seq<SlotValue> {
        seq![SlotValue::F32(self.0)]
    }

    open spec fn from_args(args: Seq<SlotValue>) -> Result<Self, BridgeError> {
        match spec_take_scalar(SlotType::F32, args) {
            Ok(val) => Ok(F32(val->F32_0)),
            Err(e) => Err(e),
        }
    }

    open spec fn args_taken(args: Seq<SlotValue>) -> nat {
        scalar_taken(args)
    }

    proof fn lemma_args_roundtrip(self, rest: Seq<SlotValue>) {
    }

    fn push_arg_tys(args: &mut Vec<SlotType>) {
        args.push(SlotType::F32);
    }

    fn store_to_args(self, args: &mut Vec<SlotValue>) {
        args.push(SlotValue::F32(self.0));
    }

    fn load_from_args(args: &mut Slots<SlotValue>) -> (loaded: Result<Self, BridgeError>) {
        let val = take_scalar(SlotType::F32, args)?;
        match val {
            SlotValue::F32(v) => Ok(F32(v)),
            other => Err(BridgeError::IncorrectArgument { expected: SlotType::F32, found: other }),
        }
    }

    fn matches_arg_tys(tys: &mut Slots<SlotType>) -> (matched: Result<(), SignatureMismatch>) {
        expect_ty(SlotType::F32, tys)
    }
}

impl Abi for F64 {
    open spec fn arg_tys() -> Seq<SlotType> {
        seq![SlotType::F64]
    }

    open spec fn to_args(self) -> Seq<SlotValue> {
        seq![SlotValue::F64(self.0)]
    }

    open spec fn from_args(args: Seq<SlotValue>) -> Result<Self, BridgeError> {
        match spec_take_scalar(SlotType::F64, args) {
            Ok(val) => Ok(F64(val->F64_0)),
            Err(e) => Err(e),
        }
    }

    open spec fn args_taken(args: Seq<SlotValue>) -> nat {
        scalar_taken(args)
    }

    proof fn lemma_args_roundtrip(self, rest: Seq<SlotValue>) {
    }

    fn push_arg_tys(args: &mut Vec<SlotType>) {
        args.push(SlotType::F64);
    }

    fn store_to_args(self, args: &mut Vec<SlotValue>) {
        args.push(SlotValue::F64(self.0));
    }

    fn load_from_args(args: &mut Slots<SlotValue>) -> (loaded: Result<Self, BridgeError>) {
        let val = take_scalar(SlotType::F64, args)?;
        match val {
            SlotValue::F64(v) => Ok(F64(v)),
            other => Err(BridgeError::IncorrectArgument { expected: SlotType::F64, found: other }),
        }
    }

    fn matches_arg_tys(tys: &mut Slots<SlotType>) -> (matched: Result<(), SignatureMismatch>) {
        expect_ty(SlotType::F64, tys)
    }
}

/// What a scalar kind makes of a function's result slot: the slot, when it is of the
/// `expected` type.
pub open spec fn spec_scalar_return(expected: SlotType, ret: Option<SlotValue>) -> Result<
    SlotValue,
    BridgeError,
> {
    match ret {
        None => Err(BridgeError::MissingReturn),
        Some(val) => if val.spec_ty() == expected {
            Ok(val)
        } else {
            Err(
                BridgeError::ReturnMismatch {
                    declared: Some(expected),
                    actual: Some(val.spec_ty()),
                },
            )
        },
    }
}

/// The result slot of a call, for a scalar kind of slot type `expected`.
pub fn scalar_return(expected: SlotType, ret: Option<&SlotValue>) -> (returned: Result<
    SlotValue,
    BridgeError,
>)
    ensures
        returned == spec_scalar_return(
            expected,
            match ret {
                Some(val) => Some(*val),
                None => None,
            },
        ),
{
    match ret {
        None => Err(BridgeError::MissingReturn),
        Some(val) => {
            if val.ty() == expected {
                Ok(*val)
            } else {
                Err(
                    BridgeError::ReturnMismatch {
                        declared: Some(expected),
                        actual: Some(val.ty()),
                    },
                )
            }
        },
    }
}

/// The verdict on a function's real result type `ret` for a scalar kind of slot type
/// `expected`.
pub open spec fn spec_expect_return(expected: SlotType, ret: Option<SlotType>) -> Result<
    (),
    BridgeError,
> {
    if ret == Some(expected) {
        Ok(())
    } else {
        Err(BridgeError::ReturnMismatch { declared: Some(expected), actual: ret })
    }
}

/// Holds a function's real result type against a scalar kind of slot type `expected`.
pub fn expect_return(expected: SlotType, ret: Option<SlotType>) -> (matched: Result<
    (),
    BridgeError,
>)
    ensures
        matched == spec_expect_return(expected, ret),
{
    match ret {
        Some(ty) => {
            if ty == expected {
                Ok(())
            } else {
                Err(BridgeError::ReturnMismatch { declared: Some(expected), actual: ret })
            }
        },
        None => Err(BridgeError::ReturnMismatch { declared: Some(expected), actual: ret }),
    }
}

/// The verdict on a function's real result type `ret` for a return that takes no result
/// slot: a function that returns nothing, or a value by reference. A result that is there
/// is a mismatch.
pub open spec fn spec_expect_nothing(ret: Option<SlotType>) -> Result<(), BridgeError> {
    if ret is None {
        Ok(())
    } else {
        Err(BridgeError::ReturnMismatch { declared: None, actual: ret })
    }
}

/// Holds a function's real result type against a return that takes no result slot.
pub fn expect_nothing(ret: Option<SlotType>) -> (matched: Result<(), BridgeError>)
    ensures
        matched == spec_expect_nothing(ret),
{
    match ret {
        Some(_) => Err(BridgeError::ReturnMismatch { declared: None, actual: ret }),
        None => Ok(()),
    }
}

/// Whether `e` is a failure of guest memory that ends a call: every failure to have or to
/// reach it but that of a free, which ends none.
pub open spec fn memory_failure(e: BridgeError) -> bool {
    e is AllocationFailure && e != BridgeError::AllocationFailure(AllocationFailure::CannotFree)
}

/// Whether `e` is a failure to free: a trap of the guest's deallocation routine, or a
/// routine that cannot free.
pub open spec fn is_free_failure(e: BridgeError) -> bool {
    e is GuestTrap || e == BridgeError::AllocationFailure(AllocationFailure::CannotFree)
}

/// Whether the reports `after` are the reports `before` with failures to free added at
/// their end.
pub open spec fn reports_added(before: Seq<BridgeError>, after: Seq<BridgeError>) -> bool {
    &&& before.len() <= after.len()
    &&& forall|i: int| 0 <= i < before.len() ==> #[trigger] after[i] == before[i]
    &&& forall|i: int| before.len() <= i < after.len() ==> is_free_failure(#[trigger] after[i])
}

/// Frees an allocation of the host, if there is one. That the guest fails to free is no
/// failure of the call, since what the range held was read before: the failure is added
/// to `reports`, for the caller to make known.
pub fn release(
    ret_by_ref_ptr: Option<WasmSliceWrapper<'_>>,
    store: &mut wasmtime::StoreContextMut<JavaState>,
    reports: &mut Vec<BridgeError>,
)
    requires
        ret_by_ref_ptr matches Some(w) ==> w.allocator().bound_to(old(store)),
    ensures
        same_store(old(store), final(store)),
        reports_added(old(reports)@, final(reports)@),
        final(reports)@.len() <= old(reports)@.len() + 1,
        ret_by_ref_ptr is None ==> final(reports)@ == old(reports)@ && *final(store) == *old(
            store,
        ),
        ret_by_ref_ptr matches Some(w) ==> (!w.allocator().frees_by_offset_and_length()
            <==> final(reports)@ == old(reports)@.push(
            BridgeError::AllocationFailure(AllocationFailure::CannotFree),
        )),
{
    match ret_by_ref_ptr {
        Some(record) => {
            match record.free(store) {
                Ok(()) => {},
                Err(failure) => {
                    reports.push(failure);
                    proof {
                        assert(reports@.last() == failure);
                    }
                },
            }
        },
        None => {},
    }
}

/// The record that was passed for a return by reference, as the guest's memory holds it:
/// `None` where none was passed.
pub open spec fn record_of(
    ret_by_ref_ptr: Option<&WasmSliceWrapper<'_>>,
    store: &wasmtime::StoreContextMut<JavaState>,
) -> Option<Result<WasmSlice, BridgeError>> {
    match ret_by_ref_ptr {
        Some(w) => Some(w.allocator().spec_obj(store, w.spec_wasm_slice().ptr)),
        None => None,
    }
}

/// The value of an optional reference.
pub open spec fn deref_opt(ret: Option<&SlotValue>) -> Option<SlotValue> {
    match ret {
        Some(val) => Some(*val),
        None => None,
    }
}

/// A value that a function can return: in its result slot, or by reference.
///
/// A function's result list only ever holds scalars. A kind that is laid out in guest memory
/// returns by reference: the caller allocates a descriptor record in guest memory and passes
/// its offset as one more, trailing, 32-bit parameter; the producer writes the descriptor
/// of the value into that record, and the caller reads it after the call.
pub trait ReturnAbi: Abi {
    /// The result slot type of the kind, or `None` for a kind that returns by reference.
    spec fn return_ty() -> Option<SlotType>;

    /// The value that a call returned, from its result slot `ret` and from the `record`
    /// passed by reference as it reads after the call.
    spec fn returned(
        ret: Option<SlotValue>,
        record: Option<Result<WasmSlice, BridgeError>>,
    ) -> Result<Self, BridgeError>;

    /// Place what the kind needs for a return in a function type: its result slot type is
    /// handed back, and a kind without one gets a trailing parameter.
    fn return_or_push_arg_tys(args: &mut Vec<SlotType>) -> (ret: Option<SlotType>)
        ensures
            ret == Self::return_ty(),
            Self::return_ty() is Some ==> final(args)@ == old(args)@,
            Self::return_ty() is None ==> final(args)@ == old(args)@.push(SlotType::I32),
    ;

    /// Hold a function's real result type and the next of its real parameter types against
    /// the kind's way to return: a scalar is the one result of the function; a value returned
    /// by reference takes the next parameter for its record and leaves the result list
    /// empty.
    fn matches_return_or_arg_tys(ret: Option<SlotType>, arg_tys: &mut Slots<SlotType>) -> (matched:
        Result<(), BridgeError>)
        ensures
            Self::return_ty() matches Some(ty) ==> matched == spec_expect_return(ty, ret)
                && final(arg_tys).rest() == old(arg_tys).rest() && final(arg_tys).spec_position()
                == old(arg_tys).spec_position(),
            Self::return_ty() is None ==> matched == (match spec_matches(
                seq![SlotType::I32],
                old(arg_tys).rest(),
                old(arg_tys).spec_position() as int,
            ) {
                Ok(()) => spec_expect_nothing(ret),
                Err(mismatch) => Err(BridgeError::SignatureMismatch(mismatch)),
            }) && final(arg_tys).rest() == old(arg_tys).rest().skip(
                taken_by_match(seq![SlotType::I32], old(arg_tys).rest()),
            ),
    ;

    /// Take the trailing parameter of a return by reference from an argument list: the guest
    /// offset of the record. A kind with a result slot takes nothing.
    fn get_return_by_ref_arg(args: &mut Slots<SlotValue>) -> (ptr: Option<i32>)
        ensures
            Self::return_ty() is Some ==> ptr is None && final(args).rest() == old(args).rest(),
            Self::return_ty() is None ==> ptr == (if old(args).rest().len() > 0 && old(
                args,
            ).rest()[0] is I32 {
                Some(old(args).rest()[0]->I32_0)
            } else {
                None::<i32>
            }) && final(args).rest() == old(args).rest().skip(
                scalar_taken(old(args).rest()) as int,
            ),
    ;

    /// Prepare an argument list for a return of this kind: a kind that returns by reference
    /// gets a zeroed record in guest memory, whose offset becomes the trailing argument; the
    /// record comes back for the caller to read and free.
    fn return_or_store_to_arg<'w>(
        args: &mut Vec<SlotValue>,
        wasm_alloc: Option<&'w WasmAlloc>,
        store: &mut wasmtime::StoreContextMut<JavaState>,
    ) -> (record: Result<Option<WasmSliceWrapper<'w>>, BridgeError>)
        requires
            wasm_alloc matches Some(a) ==> a.bound_to(old(store)),
        ensures
            same_store(old(store), final(store)),
            Self::return_ty() is Some ==> (record matches Ok(None)) && final(args)@ == old(args)@,
            Self::return_ty() is None ==> match record {
                Ok(Some(w)) => wasm_alloc == Some(w.allocator()) && final(args)@ == old(args)@.push(
                    SlotValue::I32(w.spec_wasm_slice().ptr),
                ) && w.spec_wasm_slice().ptr != 0 && w.spec_wasm_slice().spec_length()
                    == RECORD_SIZE,
                Ok(None) => false,
                Err(e) => final(args)@ == old(args)@ && (match wasm_alloc {
                    None => e == BridgeError::MissingAllocator,
                    Some(a) => a.fill_failure(RECORD_SIZE as nat, e),
                }),
            },
            Self::return_ty() is Some || wasm_alloc is None ==> *final(store) == *old(store),
            wasm_alloc matches Some(a) && !a.allocates_by_size() ==> *final(store) == *old(store)
                && (Self::return_ty() is None ==> record is Err),
    ;

    /// Load the value a call returned, from its result slot or from the record that was
    /// passed by reference. The record stays the caller's to free.
    fn return_or_load_or_from_args(
        ret: Option<&SlotValue>,
        ret_by_ref_ptr: Option<&WasmSliceWrapper<'_>>,
        wasm_alloc: Option<&WasmAlloc>,
        store: &wasmtime::StoreContextMut<JavaState>,
    ) -> (loaded: Result<Self, BridgeError>)
        requires
            ret_by_ref_ptr matches Some(w) ==> w.allocator().bound_to(store),
        ensures
            loaded == Self::returned(deref_opt(ret), record_of(ret_by_ref_ptr, store)),
    ;
}

impl ReturnAbi for i32 {
    open spec fn return_ty() -> Option<SlotType> {
        Some(SlotType::I32)
    }

    open spec fn returned(
        ret: Option<SlotValue>,
        record: Option<Result<WasmSlice, BridgeError>>,
    ) -> Result<Self, BridgeError> {
        match spec_scalar_return(SlotType::I32, ret) {
            Ok(val) => Ok(val->I32_0),
            Err(e) => Err(e),
        }
    }

    fn return_or_push_arg_tys(args: &mut Vec<SlotType>) -> (ret: Option<SlotType>) {
        Some(SlotType::I32)
    }

    fn matches_return_or_arg_tys(ret: Option<SlotType>, arg_tys: &mut Slots<SlotType>) -> (matched:
        Result<(), BridgeError>) {
        expect_return(SlotType::I32, ret)
    }

    fn get_return_by_ref_arg(args: &mut Slots<SlotValue>) -> (ptr: Option<i32>) {
        None
    }

    fn return_or_store_to_arg<'w>(
        args: &mut Vec<SlotValue>,
        wasm_alloc: Option<&'w WasmAlloc>,
        store: &mut wasmtime::StoreContextMut<JavaState>,
    ) -> (record: Result<Option<WasmSliceWrapper<'w>>, BridgeError>) {
        Ok(None)
    }

    fn return_or_load_or_from_args(
        ret: Option<&SlotValue>,
        ret_by_ref_ptr: Option<&WasmSliceWrapper<'_>>,
        wasm_alloc: Option<&WasmAlloc>,
        store: &wasmtime::StoreContextMut<JavaState>,
    ) -> (loaded: Result<Self, BridgeError>) {
        match scalar_return(SlotType::I32, ret)? {
            SlotValue::I32(v) => Ok(v),
            other => Err(
                BridgeError::ReturnMismatch {
                    declared: Some(SlotType::I32),
                    actual: Some(other.ty()),
                },
            ),
        }
    }
}

impl ReturnAbi for i64 {
    open spec fn return_ty() -> Option<SlotType> {
        Some(SlotType::I64)
    }

    open spec fn returned(
        ret: Option<SlotValue>,
        record: Option<Result<WasmSlice, BridgeError>>,
    ) -> Result<Self, BridgeError> {
        match spec_scalar_return(SlotType::I64, ret) {
            Ok(val) => Ok(val->I64_0),
            Err(e) => Err(e),
        }
    }

    fn return_or_push_arg_tys(args: &mut Vec<SlotType>) -> (ret: Option<SlotType>) {
        Some(SlotType::I64)
    }

    fn matches_return_or_arg_tys(ret: Option<SlotType>, arg_tys: &mut Slots<SlotType>) -> (matched:
        Result<(), BridgeError>) {
        expect_return(SlotType::I64, ret)
    }

    fn get_return_by_ref_arg(args: &mut Slots<SlotValue>) -> (ptr: Option<i32>) {
        None
    }

    fn return_or_store_to_arg<'w>(
        args: &mut Vec<SlotValue>,
        wasm_alloc: Option<&'w WasmAlloc>,
        store: &mut wasmtime::StoreContextMut<JavaState>,
    ) -> (record: Result<Option<WasmSliceWrapper<'w>>, BridgeError>) {
        Ok(None)
    }

    fn return_or_load_or_from_args(
        ret: Option<&SlotValue>,
        ret_by_ref_ptr: Option<&WasmSliceWrapper<'_>>,
        wasm_alloc: Option<&WasmAlloc>,
        store: &wasmtime::StoreContextMut<JavaState>,
    ) -> (loaded: Result<Self, BridgeError>) {
        match scalar_return(SlotType::I64, ret)? {
            SlotValue::I64(v) => Ok(v),
            other => Err(
                BridgeError::ReturnMismatch {
                    declared: Some(SlotType::I64),
                    actual: Some(other.ty()),
                },
            ),
        }
    }
}

impl ReturnAbi for F32 {
    open spec fn return_ty() -> Option<SlotType> {
        Some(SlotType::F32)
    }

    open spec fn returned(
        ret: Option<SlotValue>,
        record: Option<Result<WasmSlice, BridgeError>>,
    ) -> Result<Self, BridgeError> {
        match spec_scalar_return(SlotType::F32, ret) {
            Ok(val) => Ok(F32(val->F32_0)),
            Err(e) => Err(e),
        }
    }

    fn return_or_push_arg_tys(args: &mut Vec<SlotType>) -> (ret: Option<SlotType>) {
        Some(SlotType::F32)
    }

    fn matches_return_or_arg_tys(ret: Option<SlotType>, arg_tys: &mut Slots<SlotType>) -> (matched:
        Result<(), BridgeError>) {
        expect_return(SlotType::F32, ret)
    }

    fn get_return_by_ref_arg(args: &mut Slots<SlotValue>) -> (ptr: Option<i32>) {
        None
    }

    fn return_or_store_to_arg<'w>(
        args: &mut Vec<SlotValue>,
        wasm_alloc: Option<&'w WasmAlloc>,
        store: &mut wasmtime::StoreContextMut<JavaState>,
    ) -> (record: Result<Option<WasmSliceWrapper<'w>>, BridgeError>) {
        Ok(None)
    }

    fn return_or_load_or_from_args(
        ret: Option<&SlotValue>,
        ret_by_ref_ptr: Option<&WasmSliceWrapper<'_>>,
        wasm_alloc: Option<&WasmAlloc>,
        store: &wasmtime::StoreContextMut<JavaState>,
    ) -> (loaded: Result<Self, BridgeError>) {
        match scalar_return(SlotType::F32, ret)? {
            SlotValue::F32(v) => Ok(F32(v)),
            other => Err(
                BridgeError::ReturnMismatch {
                    declared: Some(SlotType::F32),
                    actual: Some(other.ty()),
                },
            ),
        }
    }
}

impl ReturnAbi for F64 {
    open spec fn return_ty() -> Option<SlotType> {
        Some(SlotType::F64)
    }

    open spec fn returned(
        ret: Option<SlotValue>,
        record: Option<Result<WasmSlice, BridgeError>>,
    ) -> Result<Self, BridgeError> {
        match spec_scalar_return(SlotType::F64, ret) {
            Ok(val) => Ok(F64(val->F64_0)),
            Err(e) => Err(e),
        }
    }

    fn return_or_push_arg_tys(args: &mut Vec<SlotType>) -> (ret: Option<SlotType>) {
        Some(SlotType::F64)
    }

    fn matches_return_or_arg_tys(ret: Option<SlotType>, arg_tys: &mut Slots<SlotType>) -> (matched:
        Result<(), BridgeError>) {
        expect_return(SlotType::F64, ret)
    }

    fn get_return_by_ref_arg(args: &mut Slots<SlotValue>) -> (ptr: Option<i32>) {
        None
    }

    fn return_or_store_to_arg<'w>(
        args: &mut Vec<SlotValue>,
        wasm_alloc: Option<&'w WasmAlloc>,
        store: &mut wasmtime::StoreContextMut<JavaState>,
    ) -> (record: Result<Option<WasmSliceWrapper<'w>>, BridgeError>) {
        Ok(None)
    }

    fn return_or_load_or_from_args(
        ret: Option<&SlotValue>,
        ret_by_ref_ptr: Option<&WasmSliceWrapper<'_>>,
        wasm_alloc: Option<&WasmAlloc>,
        store: &wasmtime::StoreContextMut<JavaState>,
    ) -> (loaded: Result<Self, BridgeError>) {
        match scalar_return(SlotType::F64, ret)? {
            SlotValue::F64(v) => Ok(F64(v)),
            other => Err(
                BridgeError::ReturnMismatch {
                    declared: Some(SlotType::F64),
                    actual: Some(other.ty()),
                },
            ),
        }
    }
}

/// A scalar of every kind comes back as it was returned: the slot that carries it as an
/// argument is of the result slot type of its kind, and loading from that slot gives the
/// scalar, whether or not a record was passed besides.
pub proof fn lemma_return_roundtrip(
    narrow: i32,
    wide: i64,
    single: F32,
    precise: F64,
    record: Option<Result<WasmSlice, BridgeError>>,
)
    ensures
        Some(narrow.to_args()[0].spec_ty()) == i32::return_ty(),
        i32::returned(Some(narrow.to_args()[0]), record) == Ok::<i32, BridgeError>(narrow),
        Some(wide.to_args()[0].spec_ty()) == i64::return_ty(),
        i64::returned(Some(wide.to_args()[0]), record) == Ok::<i64, BridgeError>(wide),
        Some(single.to_args()[0].spec_ty()) == F32::return_ty(),
        F32::returned(Some(single.to_args()[0]), record) == Ok::<F32, BridgeError>(single),
        Some(precise.to_args()[0].spec_ty()) == F64::return_ty(),
        F64::returned(Some(precise.to_args()[0]), record) == Ok::<F64, BridgeError>(precise),
{
}

} // verus!
