//! The two call bridges: a managed callback exposed to the guest, and a guest export invoked
//! from managed code.

use vstd::prelude::*;
use crate::engine::{
    callable, caller_context, caller_linear_memory, caller_runs_async, caller_store,
    func_signature, func_ty, same_caller, same_store, scalar_results, store_id,
};
use crate::guest::call_guest;
use crate::error::{AllocationFailure, BridgeError, SignatureMismatch};
use crate::exports::WasmSlice;
use crate::java::{JavaClass, JavaObject, JavaObjectView};
use crate::ty::complex_ty::{
    expect_nothing, first_mismatch, lemma_first_mismatch, lemma_first_mismatch_concat,
    memory_failure, release,
    reports_added, spec_expect_nothing, spec_expect_return, spec_matches, spec_take_scalar, Abi,
};
use crate::ty::wasm_alloc::{
    caller_exchanges_bytes, record_at, spec_copy_failure, WasmAlloc, WasmSliceWrapper,
    RECORD_SIZE,
};
use crate::val::{slot_tys, SlotType, SlotValue, Slots};
use crate::wasm_state::JavaState;
use crate::wasm_value::{
    class_kind, class_name, from_java, from_java_class, java_scalar, return_or_load_or_from_arg,
    spec_from_java, spec_image, spec_object, spec_range_in, WasmTy, WasmVal, WasmValView,
};

verus! {

/// The slot types of a sequence of kinds in argument position, one kind after the other.
pub open spec fn flat_arg_tys(kinds: Seq<WasmTy>) -> Seq<SlotType>
    decreases kinds.len(),
{
    if kinds.len() == 0 {
        Seq::empty()
    } else {
        flat_arg_tys(kinds.drop_last()) + kinds.last().arg_tys()
    }
}

/// The slot types of a sequence of kinds are those of a first part followed by those of the
/// rest.
pub proof fn lemma_flat_arg_tys_concat(head: Seq<WasmTy>, tail: Seq<WasmTy>)
    ensures
        flat_arg_tys(head + tail) == flat_arg_tys(head) + flat_arg_tys(tail),
    decreases tail.len(),
{
    if tail.len() == 0 {
    } else {
        assert((head + tail).drop_last() =~= head + tail.drop_last());
        lemma_flat_arg_tys_concat(head, tail.drop_last());
    }
}

/// The parameter list of the function type for declared kinds: the slots of each parameter
/// in turn, and one trailing 32-bit slot for a return by reference.
pub open spec fn spec_params(params: Seq<WasmTy>, ret: Option<WasmTy>) -> Seq<SlotType> {
    match ret {
        Some(kind) => if kind.return_ty() is None {
            flat_arg_tys(params).push(SlotType::I32)
        } else {
            flat_arg_tys(params)
        },
        None => flat_arg_tys(params),
    }
}

/// The result list of the function type for a declared return kind: the slot of a scalar,
/// and nothing otherwise.
pub open spec fn spec_results(ret: Option<WasmTy>) -> Seq<SlotType> {
    match ret {
        Some(kind) => match kind.return_ty() {
            Some(ty) => seq![ty],
            None => Seq::empty(),
        },
        None => Seq::empty(),
    }
}

/// The verdict on a function's real slot types against an expected function type: the first
/// parameter slot that disagrees, or else a result slot that disagrees. Where no result is
/// expected, a result that is there disagrees.
pub open spec fn spec_check(
    params: Seq<SlotType>,
    results: Seq<SlotType>,
    real_params: Seq<SlotType>,
    real_results: Seq<SlotType>,
) -> Result<(), BridgeError> {
    match spec_matches(params, real_params, 0) {
        Err(mismatch) => Err(BridgeError::SignatureMismatch(mismatch)),
        Ok(()) => if results.len() == 0 {
            spec_expect_nothing(
                if real_results.len() > 0 {
                    Some(real_results[0])
                } else {
                    None
                },
            )
        } else {
            spec_expect_return(
                results[0],
                if real_results.len() > 0 {
                    Some(real_results[0])
                } else {
                    None
                },
            )
        },
    }
}

/// Hold the real parameter types of a function against a sequence of kinds. A mismatch
/// names the index of the first slot that disagrees, the type expected there and the type
/// found.
pub fn match_params(kinds: &[WasmTy], tys: &mut Slots<SlotType>) -> (matched: Result<
    (),
    SignatureMismatch,
>)
    requires
        forall|i: int| 0 <= i < kinds@.len() ==> (#[trigger] kinds@[i]).supported(),
    ensures
        matched == spec_matches(
            flat_arg_tys(kinds@),
            old(tys).rest(),
            old(tys).spec_position() as int,
        ),
        matched is Ok ==> final(tys).rest() == old(tys).rest().skip(
            flat_arg_tys(kinds@).len() as int,
        ) && final(tys).spec_position() == old(tys).spec_position() + flat_arg_tys(kinds@).len(),
{
    let ghost actual = tys.rest();
    let ghost start = tys.spec_position() as int;
    let mut i: usize = 0;
    while i < kinds.len()
        invariant
            i <= kinds@.len(),
            actual == old(tys).rest(),
            start == old(tys).spec_position(),
            forall|k: int| 0 <= k < kinds@.len() ==> (#[trigger] kinds@[k]).supported(),
            first_mismatch(flat_arg_tys(kinds@.take(i as int)), actual) is None,
            tys.rest() == actual.skip(flat_arg_tys(kinds@.take(i as int)).len() as int),
            tys.spec_position() == start + flat_arg_tys(kinds@.take(i as int)).len(),
        decreases kinds@.len() - i,
    {
        let ghost head = flat_arg_tys(kinds@.take(i as int));
        let ghost tail = kinds@[i as int].arg_tys();
        proof {
            assert(kinds@.take(i + 1).drop_last() =~= kinds@.take(i as int));
            lemma_first_mismatch_concat(head, tail, actual);
            lemma_first_mismatch(head, actual);
            lemma_first_mismatch(tail, actual.skip(head.len() as int));
        }
        match kinds[i].matches_arg_tys(tys) {
            Ok(()) => {},
            Err(mismatch) => {
                proof {
                    let rest = kinds@.skip(i + 1);
                    assert(kinds@ =~= kinds@.take(i + 1) + rest);
                    lemma_flat_arg_tys_concat(kinds@.take(i + 1), rest);
                    lemma_first_mismatch_concat(head + tail, flat_arg_tys(rest), actual);
                }
                return Err(mismatch);
            },
        }
        i = i + 1;
    }
    proof {
        assert(kinds@.take(i as int) =~= kinds@);
    }
    Ok(())
}

/// Whether `e` is the failure to declare `clazz`, as a parameter or as a return: the class
/// has no kind, or it is a parameter and stands for no value.
pub open spec fn undeclarable(clazz: JavaClass, for_return: bool, e: BridgeError) -> bool {
    match class_kind(clazz, for_return) {
        None => e matches BridgeError::UnsupportedType { name, for_return: position } && name@
            == class_name(clazz) && position == for_return,
        Some(None) => !for_return && e == BridgeError::NullParameter,
        Some(Some(_)) => false,
    }
}

/// Whether `e` is what keeps kinds from making a signature: the first parameter kind that
/// cannot be marshaled, or else a return kind that cannot be returned.
pub open spec fn unmarshalable(params: Seq<WasmTy>, ret: Option<WasmTy>, e: BridgeError) -> bool {
    ||| exists|i: int|
        0 <= i < params.len() && !(#[trigger] params[i]).supported() && (forall|j: int|
            0 <= j < i ==> (#[trigger] params[j]).supported()) && e
            == (BridgeError::UnsupportedParameter { position: i as usize, ty: params[i]->Slot_0 })
    ||| (forall|j: int| 0 <= j < params.len() ==> (#[trigger] params[j]).supported()) && ret
        == Some(WasmTy::ByteBuffer) && e == BridgeError::DirectBufferReturn
    ||| (forall|j: int| 0 <= j < params.len() ==> (#[trigger] params[j]).supported()) && (
    ret matches Some(WasmTy::Slot(ty)) && !ty.spec_is_scalar() && e
        == (BridgeError::UnsupportedReturn { ty }))
}

/// The declared signature of a bridged function: the kinds of its parameters in order, and
/// the kind of its return, if it returns a value. It is fixed when the bridge is made.
pub struct CallSignature {
    params: Vec<WasmTy>,
    ret: Option<WasmTy>,
}

impl CallSignature {
    #[verifier::type_invariant]
    spec fn well_formed(self) -> bool {
        &&& forall|i: int| 0 <= i < self.params@.len() ==> (#[trigger] self.params@[i]).supported()
        &&& self.ret matches Some(kind) ==> kind.supported() && !(kind is ByteBuffer)
    }

    /// The kinds of the parameters, in order.
    pub closed spec fn params(&self) -> Seq<WasmTy> {
        self.params@
    }

    /// The kind of the return, or `None` for a function that returns nothing.
    pub closed spec fn ret(&self) -> Option<WasmTy> {
        self.ret
    }

    /// The parameter list of the function type.
    pub open spec fn param_tys(&self) -> Seq<SlotType> {
        spec_params(self.params(), self.ret())
    }

    /// The result list of the function type.
    pub open spec fn result_tys(&self) -> Seq<SlotType> {
        spec_results(self.ret())
    }

    /// A signature of the given kinds. Every kind has to be one that can be marshaled, and
    /// a direct byte buffer cannot be the return.
    pub fn new(params: Vec<WasmTy>, ret: Option<WasmTy>) -> (signature: Result<Self, BridgeError>)
        ensures
            signature matches Ok(s) ==> s.params() == params@ && s.ret() == ret,
            signature is Ok <==> (forall|i: int|
                0 <= i < params@.len() ==> (#[trigger] params@[i]).supported()) && (
            ret matches Some(kind) ==> kind.supported() && !(kind is ByteBuffer)),
            signature matches Err(e) ==> unmarshalable(params@, ret, e),
    {
        let mut i: usize = 0;
        while i < params.len()
            invariant
                i <= params@.len(),
                forall|j: int| 0 <= j < i ==> (#[trigger] params@[j]).supported(),
            decreases params@.len() - i,
        {
            match params[i] {
                WasmTy::Slot(ty) => {
                    if !ty.is_scalar() {
                        return Err(BridgeError::UnsupportedParameter { position: i, ty });
                    }
                },
                _ => {},
            }
            i = i + 1;
        }
        match ret {
            Some(WasmTy::ByteBuffer) => {
                return Err(BridgeError::DirectBufferReturn);
            },
            Some(WasmTy::Slot(ty)) => {
                if !ty.is_scalar() {
                    return Err(BridgeError::UnsupportedReturn { ty });
                }
            },
            _ => {},
        }
        Ok(CallSignature { params, ret })
    }

    /// The signature that declared classes stand for: each parameter class has to have a
    /// kind, and the return class has to have one or stand for no value. The first class
    /// that fails is reported.
    pub fn from_classes(param_tys: &[JavaClass], return_ty: &JavaClass) -> (signature: Result<
        Self,
        BridgeError,
    >)
        ensures
            signature matches Ok(s) ==> s.params().len() == param_tys@.len() && (forall|i: int|
                0 <= i < param_tys@.len() ==> class_kind(#[trigger] param_tys@[i], false) == Some(
                    Some(s.params()[i]),
                )) && class_kind(*return_ty, true) == Some(s.ret()),
            signature matches Err(e) ==> ((exists|i: int|
                0 <= i < param_tys@.len() && undeclarable(#[trigger] param_tys@[i], false, e)
                    && forall|j: int|
                    0 <= j < i ==> class_kind(#[trigger] param_tys@[j], false) matches Some(
                        Some(_),
                    )) || ((forall|j: int|
                0 <= j < param_tys@.len() ==> class_kind(
                    #[trigger] param_tys@[j],
                    false,
                ) matches Some(Some(_))) && undeclarable(*return_ty, true, e))),
    {
        // collect all the arguments
        let mut java_args: Vec<WasmTy> = Vec::new();
        let mut i: usize = 0;
        while i < param_tys.len()
            invariant
                i <= param_tys@.len(),
                java_args@.len() == i,
                forall|j: int|
                    0 <= j < i ==> class_kind(#[trigger] param_tys@[j], false) == Some(
                        Some(java_args@[j]),
                    ),
                forall|j: int| 0 <= j < i ==> (#[trigger] java_args@[j]).supported(),
            decreases param_tys@.len() - i,
        {
            // this is a list of classes
            let val = match from_java_class(&param_tys[i], false) {
                Ok(val) => val,
                Err(e) => {
                    return Err(e);
                },
            };
            let val = match val {
                Some(val) => val,
                None => {
                    return Err(BridgeError::NullParameter);
                },
            };
            java_args.push(val);
            i = i + 1;
        }
        // determine the return type
        let java_ret = match from_java_class(return_ty, true) {
            Ok(java_ret) => java_ret,
            Err(e) => {
                return Err(e);
            },
        };
        Ok(CallSignature { params: java_args, ret: java_ret })
    }

    /// The type of the guest function that carries the signature: its parameter slots and
    /// its result slots.
    pub fn func_type(&self) -> (ty: (Vec<SlotType>, Vec<SlotType>))
        ensures
            ty.0@ == self.param_tys(),
            ty.1@ == self.result_tys(),
    {
        proof {
            use_type_invariant(self);
        }
        let mut wasm_args: Vec<SlotType> = Vec::new();
        let mut i: usize = 0;
        while i < self.params.len()
            invariant
                i <= self.params@.len(),
                forall|j: int|
                    0 <= j < self.params@.len() ==> (#[trigger] self.params@[j]).supported(),
                wasm_args@ == flat_arg_tys(self.params@.take(i as int)),
            decreases self.params@.len() - i,
        {
            proof {
                assert(self.params@.take(i + 1).drop_last() =~= self.params@.take(i as int));
            }
            self.params[i].push_arg_tys(&mut wasm_args);
            i = i + 1;
        }
        proof {
            assert(self.params@.take(i as int) =~= self.params@);
        }
        let wasm_ret = match &self.ret {
            Some(java_ret) => java_ret.return_or_push_arg_tys(&mut wasm_args),
            None => None,
        };
        let mut results: Vec<SlotType> = Vec::new();
        match wasm_ret {
            Some(ty) => {
                results.push(ty);
            },
            None => {},
        }
        (wasm_args, results)
    }

    /// Hold the real slot types of a guest function against the signature. The first
    /// parameter slot that disagrees is reported with its index, the type expected there and
    /// the type found; after the parameters, the result slot.
    pub fn matches(&self, real_params: &[SlotType], real_results: &[SlotType]) -> (matched: Result<
        (),
        BridgeError,
    >)
        ensures
            matched == spec_check(
                self.param_tys(),
                self.result_tys(),
                real_params@,
                real_results@,
            ),
    {
        proof {
            use_type_invariant(self);
        }
        let mut tys = Slots::new(real_params);
        let ghost flat = flat_arg_tys(self.params@);
        proof {
            lemma_first_mismatch_concat(flat, seq![SlotType::I32], real_params@);
            lemma_first_mismatch(flat, real_params@);
            assert(flat.push(SlotType::I32) =~= flat + seq![SlotType::I32]);
        }
        match match_params(self.params.as_slice(), &mut tys) {
            Ok(()) => {},
            Err(mismatch) => {
                return Err(BridgeError::SignatureMismatch(mismatch));
            },
        }
        let ret = if real_results.len() > 0 {
            Some(real_results[0])
        } else {
            None
        };
        match &self.ret {
            Some(java_ret) => {
                proof {
                    lemma_first_mismatch(
                        seq![SlotType::I32],
                        real_params@.skip(flat.len() as int),
                    );
                }
                java_ret.matches_return_or_arg_tys(ret, &mut tys)
            },
            None => expect_nothing(ret),
        }
    }
}

/// The mathematical content of a list of managed objects.
pub open spec fn objects_view(objs: Seq<JavaObject>) -> Seq<JavaObjectView> {
    objs.map_values(|obj: JavaObject| obj@)
}

/// The managed object that the slots at the front of `args` carry for one kind, and the
/// slots that follow it, where `image` is the guest memory as it reads at this moment, and
/// `None` where there is no allocator to reach it.
pub open spec fn spec_load_arg(
    kind: WasmTy,
    args: Seq<SlotValue>,
    image: Option<Seq<u8>>,
) -> Result<(JavaObjectView, Seq<SlotValue>), BridgeError> {
    match kind {
        WasmTy::Slot(ty) => match spec_take_scalar(ty, args) {
            Ok(val) => Ok((java_scalar(val), args.skip(1))),
            Err(e) => Err(e),
        },
        _ => match WasmSlice::from_args(args) {
            Err(e) => Err(e),
            Ok(slice) => match spec_range_in(image, slice) {
                Err(e) => Err(e),
                Ok(bytes) => Ok((spec_object(kind, slice, bytes), args.skip(2))),
            },
        },
    }
}

/// The managed objects that the slots `args` carry for a sequence of kinds, and the slots
/// that are left; or the first failure, going from the first kind to the last.
pub open spec fn spec_load_args(
    kinds: Seq<WasmTy>,
    args: Seq<SlotValue>,
    image: Option<Seq<u8>>,
) -> Result<(Seq<JavaObjectView>, Seq<SlotValue>), BridgeError>
    decreases kinds.len(),
{
    if kinds.len() == 0 {
        Ok((Seq::empty(), args))
    } else {
        match spec_load_args(kinds.drop_last(), args, image) {
            Err(e) => Err(e),
            Ok((objs, rest)) => match spec_load_arg(kinds.last(), rest, image) {
                Err(e) => Err(e),
                Ok((obj, rest)) => Ok((objs.push(obj), rest)),
            },
        }
    }
}

/// A failure on the first `n` kinds is the failure on all of them.
pub proof fn lemma_load_args_fails(
    kinds: Seq<WasmTy>,
    n: int,
    args: Seq<SlotValue>,
    image: Option<Seq<u8>>,
)
    requires
        0 <= n <= kinds.len(),
        spec_load_args(kinds.take(n), args, image) is Err,
    ensures
        spec_load_args(kinds, args, image) == spec_load_args(kinds.take(n), args, image),
    decreases kinds.len() - n,
{
    if n == kinds.len() {
        assert(kinds.take(n) =~= kinds);
    } else {
        assert(kinds.drop_last().take(n) =~= kinds.take(n));
        lemma_load_args_fails(kinds.drop_last(), n, args, image);
    }
}

/// Whether every kind of a sequence is a scalar in a slot of its own.
pub open spec fn scalars_only(kinds: Seq<WasmTy>) -> bool {
    forall|i: int| 0 <= i < kinds.len() ==> (#[trigger] kinds[i]) is Slot
}

/// The managed objects that box the first `count` slots.
pub open spec fn boxed_scalars(args: Seq<SlotValue>, count: nat) -> Seq<JavaObjectView> {
    Seq::new(count, |i: int| java_scalar(args[i]))
}

/// The slot types of scalar kinds are one for each kind.
pub proof fn lemma_scalar_arg_tys(kinds: Seq<WasmTy>)
    requires
        scalars_only(kinds),
    ensures
        flat_arg_tys(kinds).len() == kinds.len(),
        forall|i: int|
            0 <= i < kinds.len() ==> WasmTy::Slot(#[trigger] flat_arg_tys(kinds)[i]) == kinds[i],
    decreases kinds.len(),
{
    if kinds.len() > 0 {
        lemma_scalar_arg_tys(kinds.drop_last());
        assert(kinds.last() == kinds[kinds.len() - 1]);
    }
}

/// Scalars that are of the declared types load, each from its slot, whatever the guest's
/// memory holds and whether or not it can be reached: where every kind is a scalar and the
/// slots are of the types of the kinds, the objects are the boxed slots, one for each kind,
/// and the slots after them are left.
pub proof fn lemma_scalars_load(kinds: Seq<WasmTy>, args: Seq<SlotValue>, image: Option<Seq<u8>>)
    requires
        scalars_only(kinds),
        spec_matches(flat_arg_tys(kinds), slot_tys(args), 0) is Ok,
    ensures
        kinds.len() <= args.len(),
        spec_load_args(kinds, args, image) == Ok::<
            (Seq<JavaObjectView>, Seq<SlotValue>),
            BridgeError,
        >((boxed_scalars(args, kinds.len()), args.skip(kinds.len() as int))),
    decreases kinds.len(),
{
    lemma_scalar_arg_tys(kinds);
    lemma_first_mismatch(flat_arg_tys(kinds), slot_tys(args));
    if kinds.len() == 0 {
        assert(boxed_scalars(args, 0) =~= Seq::<JavaObjectView>::empty());
        assert(args.skip(0) =~= args);
    } else {
        let n = kinds.len() - 1;
        let head = kinds.drop_last();
        lemma_first_mismatch_concat(flat_arg_tys(head), kinds.last().arg_tys(), slot_tys(args));
        lemma_scalars_load(head, args, image);
        assert(kinds.last() == kinds[n]);
        assert(WasmTy::Slot(flat_arg_tys(kinds)[n]) == kinds[n]);
        assert(slot_tys(args)[n] == flat_arg_tys(kinds)[n]);
        assert(args.skip(n)[0] == args[n]);
        assert(boxed_scalars(args, n as nat).push(java_scalar(args[n])) =~= boxed_scalars(
            args,
            kinds.len(),
        ));
        assert(args.skip(n).skip(1) =~= args.skip(kinds.len() as int));
    }
}

/// The guest offset of the record for a return by reference: the slot that follows the
/// arguments, where the declared return kind returns by reference and the slot holds a
/// 32-bit integer.
pub open spec fn spec_ret_ptr(ret: Option<WasmTy>, rest: Seq<SlotValue>) -> Option<i32> {
    match ret {
        Some(kind) => if kind.return_ty() is None && rest.len() > 0 && rest[0] is I32 {
            Some(rest[0]->I32_0)
        } else {
            None
        },
        None => None,
    }
}

/// What a call of the guest into a managed callback carries: the arguments as managed
/// objects, and the guest offset of the record for a return by reference, if the guest
/// passed one.
pub struct CallbackArgs {
    pub args: Vec<JavaObject>,
    pub ret_by_ref_ptr: Option<i32>,
}

impl CallSignature {
    /// The first half of a call of the guest into a managed callback: the slot values the
    /// guest passed are held against the declared kinds, and on a mismatch nothing else
    /// happens; then each argument becomes a managed object. Values in guest memory are
    /// read where they are: their ranges are the guest's, and nothing is freed.
    pub fn load_args(
        &self,
        inputs: &[SlotValue],
        wasm_alloc: Option<&WasmAlloc>,
        store: &wasmtime::StoreContextMut<JavaState>,
    ) -> (loaded: Result<CallbackArgs, BridgeError>)
        requires
            wasm_alloc matches Some(a) ==> a.bound_to(store),
        ensures
            spec_matches(flat_arg_tys(self.params()), slot_tys(inputs@), 0) matches Err(mismatch)
                ==> loaded == Err::<CallbackArgs, BridgeError>(
                BridgeError::SignatureMismatch(mismatch),
            ),
            spec_matches(flat_arg_tys(self.params()), slot_tys(inputs@), 0) is Ok
                ==> match spec_load_args(self.params(), inputs@, spec_image(wasm_alloc, store)) {
                Err(e) => loaded == Err::<CallbackArgs, BridgeError>(e),
                Ok((objs, rest)) => loaded matches Ok(call) && objects_view(call.args@) == objs
                    && call.ret_by_ref_ptr == spec_ret_ptr(self.ret(), rest),
            },
            loaded matches Ok(call) ==> call.args@.len() == self.params().len(),
    {
        proof {
            use_type_invariant(self);
        }
        // validate the parameters
        let mut input_tys: Vec<SlotType> = Vec::new();
        let mut k: usize = 0;
        while k < inputs.len()
            invariant
                k <= inputs@.len(),
                input_tys@ == slot_tys(inputs@.take(k as int)),
            decreases inputs@.len() - k,
        {
            input_tys.push(inputs[k].ty());
            k = k + 1;
        }
        proof {
            assert(inputs@.take(k as int) =~= inputs@);
        }
        let mut input_ty_iter = Slots::new(input_tys.as_slice());
        match match_params(self.params.as_slice(), &mut input_ty_iter) {
            Ok(()) => {},
            Err(mismatch) => {
                return Err(BridgeError::SignatureMismatch(mismatch));
            },
        }
        // set the parameters
        let mut input_iter = Slots::new(inputs);
        let mut args: Vec<JavaObject> = Vec::new();
        let mut i: usize = 0;
        proof {
            assert(objects_view(args@) =~= Seq::<JavaObjectView>::empty());
        }
        while i < self.params.len()
            invariant
                i <= self.params@.len(),
                args@.len() == i,
                wasm_alloc matches Some(a) ==> a.bound_to(store),
                spec_matches(flat_arg_tys(self.params@), slot_tys(inputs@), 0) is Ok,
                forall|j: int|
                    0 <= j < self.params@.len() ==> (#[trigger] self.params@[j]).supported(),
                spec_load_args(
                    self.params@.take(i as int),
                    inputs@,
                    spec_image(wasm_alloc, store),
                ) == Ok::<
                    (Seq<JavaObjectView>, Seq<SlotValue>),
                    BridgeError,
                >((objects_view(args@), input_iter.rest())),
            decreases self.params@.len() - i,
        {
            proof {
                assert(self.params@.take(i + 1).drop_last() =~= self.params@.take(i as int));
            }
            match self.params[i].load_from_args(&mut input_iter, wasm_alloc, store) {
                Ok(jvalue) => {
                    let ghost objs = objects_view(args@);
                    let ghost obj = jvalue@;
                    args.push(jvalue);
                    proof {
                        assert(objects_view(args@) =~= objs.push(obj));
                    }
                },
                Err(e) => {
                    proof {
                        lemma_load_args_fails(
                            self.params@,
                            i + 1,
                            inputs@,
                            spec_image(wasm_alloc, store),
                        );
                    }
                    return Err(e);
                },
            }
            i = i + 1;
        }
        proof {
            assert(self.params@.take(i as int) =~= self.params@);
        }
        // get the optional pointer to the arg to store a byte return by ref
        let ret_by_ref_ptr = match &self.ret {
            Some(java_ret) => java_ret.get_return_by_ref_arg(&mut input_iter),
            None => None,
        };
        Ok(CallbackArgs { args, ret_by_ref_ptr })
    }
}

/// What the result of a managed callback means for the guest call that invoked it, as far
/// as it is decided before guest memory is touched: the value for the result slot, or the
/// failure that becomes a trap.
///
/// A scalar goes into the result slot, and a null result leaves a null reference there.
/// Bytes and text return by reference: they need the record the guest passed and an
/// allocator, and they are a failure where the guest expects a scalar. A result that the
/// guest has no place for is dropped, except that a record the guest passed must not stay
/// unwritten.
pub open spec fn spec_result_slot(
    val: Option<WasmValView>,
    has_result: bool,
    ret_by_ref_ptr: Option<i32>,
    has_alloc: bool,
) -> Result<Option<SlotValue>, BridgeError> {
    match val {
        Some(WasmValView::Val(v)) => if has_result {
            Ok(Some(v))
        } else if ret_by_ref_ptr is Some {
            Err(BridgeError::MissingReturn)
        } else {
            Ok(None)
        },
        Some(_) => if has_result {
            Err(BridgeError::UnexpectedReturn)
        } else if ret_by_ref_ptr is None {
            Err(BridgeError::MissingReturnPointer)
        } else if !has_alloc {
            Err(BridgeError::MissingAllocator)
        } else {
            Ok(None)
        },
        None => if has_result {
            Ok(Some(SlotValue::Ref))
        } else if ret_by_ref_ptr is Some {
            Err(BridgeError::MissingReturn)
        } else {
            Ok(None)
        },
    }
}

/// Whether the result of a managed callback is dropped: a scalar that the guest has no place
/// for, neither a result slot nor a record. That is no failure of the call, and worth
/// making known.
pub open spec fn spec_drops_result(
    val: Option<WasmValView>,
    has_result: bool,
    ret_by_ref_ptr: Option<i32>,
) -> bool {
    val matches Some(WasmValView::Val(_)) && !has_result && ret_by_ref_ptr is None
}

/// Whether the result of a managed callback is dropped: a scalar that the guest has no place
/// for, neither a result slot nor a record. That is no failure of the call, and worth
/// making known.
pub fn drops_result(
    val: Option<WasmVal<'_>>,
    has_result: bool,
    ret_by_ref_ptr: Option<i32>,
) -> (dropped: bool)
    ensures
        dropped == spec_drops_result(spec_val(val), has_result, ret_by_ref_ptr),
        dropped ==> forall|has_alloc: bool|
            spec_result_slot(spec_val(val), has_result, ret_by_ref_ptr, has_alloc) == Ok::<
                Option<SlotValue>,
                BridgeError,
            >(None),
{
    match val {
        Some(WasmVal::Val(_)) => !has_result && ret_by_ref_ptr.is_none(),
        _ => false,
    }
}

/// Whether `e` is what handing `size` bytes of a callback's result to the guest fails
/// with, for a memory of `memory` bytes and an allocation routine that is of the agreed
/// type or not: what copying them into a fresh range fails with, or a record at `ptr` that
/// does not lie inside the memory.
pub open spec fn spec_result_failure(
    memory: nat,
    agreed: bool,
    size: nat,
    ptr: i32,
    e: BridgeError,
) -> bool {
    ||| spec_copy_failure(memory, agreed, size, e)
    ||| e matches BridgeError::AllocationFailure(
        AllocationFailure::OutOfBounds { offset, length, memory },
    ) && offset == record_at(ptr).spec_offset() && length == RECORD_SIZE
}

/// Whether `e` is what handing `size` bytes of a callback's result to the guest fails
/// with, through an allocator and for the memory as `store` holds it.
pub open spec fn result_failure(
    wasm_alloc: &WasmAlloc,
    store: &wasmtime::StoreContextMut<JavaState>,
    size: nat,
    ptr: i32,
    e: BridgeError,
) -> bool {
    spec_result_failure(
        wasm_alloc.image(store).len(),
        wasm_alloc.allocates_by_size(),
        size,
        ptr,
        e,
    )
}

/// The second half of a call of the guest into a managed callback: the result of the
/// callback goes to the guest.
///
/// A scalar comes back for the result slot. Bytes and text are copied into freshly allocated
/// guest memory, and the descriptor of the range is written into the record whose offset
/// the guest passed; from then on the range is the guest's to free. The range reads as
/// the bytes of the result, unless the guest's allocator put it on top of the record. Where
/// the record cannot be written, the range goes back to the guest, and a failure to free
/// it is added to `reports`.
pub fn store_result(
    val: Option<WasmVal<'_>>,
    has_result: bool,
    ret_by_ref_ptr: Option<i32>,
    wasm_alloc: Option<&WasmAlloc>,
    store: &mut wasmtime::StoreContextMut<JavaState>,
    reports: &mut Vec<BridgeError>,
) -> (stored: Result<Option<SlotValue>, BridgeError>)
    requires
        wasm_alloc matches Some(a) ==> a.bound_to(old(store)),
    ensures
        same_store(old(store), final(store)),
        reports_added(old(reports)@, final(reports)@),
        final(reports)@.len() <= old(reports)@.len() + 1,
        stored is Ok ==> final(reports)@ == old(reports)@,
        spec_result_slot(spec_val(val), has_result, ret_by_ref_ptr, wasm_alloc is Some) matches Err(
            e,
        ) ==> stored == Err::<Option<SlotValue>, BridgeError>(e) && *final(store) == *old(store)
            && final(reports)@ == old(reports)@,
        spec_result_slot(spec_val(val), has_result, ret_by_ref_ptr, wasm_alloc is Some) matches Ok(
            slot,
        ) ==> (match spec_payload(val) {
            None => stored == Ok::<Option<SlotValue>, BridgeError>(slot) && *final(store) == *old(
                store,
            ),
            Some(bytes) => match stored {
                Ok(slot) => slot is None && (wasm_alloc->0.spec_obj(
                    final(store),
                    ret_by_ref_ptr->0,
                ) matches Ok(written) && written.ptr != 0 && written.spec_length() == bytes.len()
                    && (written.disjoint(record_at(ret_by_ref_ptr->0)) ==> wasm_alloc->0.bytes_at(
                    final(store),
                    written,
                ) == Some(bytes))),
                Err(e) => result_failure(
                    wasm_alloc->0,
                    old(store),
                    bytes.len(),
                    ret_by_ref_ptr->0,
                    e,
                ),
            },
        }),
{
    match val {
        Some(WasmVal::Val(val)) => {
            if has_result {
                Ok(Some(val))
            } else if ret_by_ref_ptr.is_some() {
                Err(BridgeError::MissingReturn)
            } else {
                Ok(None)
            }
        },
        Some(WasmVal::ByteArray(bytes)) => store_bytes(
            bytes,
            has_result,
            ret_by_ref_ptr,
            wasm_alloc,
            store,
            reports,
        ),
        Some(WasmVal::String(string)) => store_bytes(
            string.as_bytes(),
            has_result,
            ret_by_ref_ptr,
            wasm_alloc,
            store,
            reports,
        ),
        None => {
            if has_result {
                Ok(Some(SlotValue::null()))
            } else if ret_by_ref_ptr.is_some() {
                Err(BridgeError::MissingReturn)
            } else {
                Ok(None)
            }
        },
    }
}

/// The mathematical content of an optional value.
pub open spec fn spec_val(val: Option<WasmVal<'_>>) -> Option<WasmValView> {
    match val {
        Some(val) => Some(val@),
        None => None,
    }
}

/// The bytes that an optional value puts into guest memory.
pub open spec fn spec_payload(val: Option<WasmVal<'_>>) -> Option<Seq<u8>> {
    match val {
        Some(val) => val.payload(),
        None => None,
    }
}

/// Returns bytes by reference: allocates a range for them in the guest, copies them, and
/// hands the range over through the record at `ret_by_ref_ptr`, as
/// [`WasmSliceWrapper::hand_over`] does.
fn store_bytes(
    bytes: &[u8],
    has_result: bool,
    ret_by_ref_ptr: Option<i32>,
    wasm_alloc: Option<&WasmAlloc>,
    store: &mut wasmtime::StoreContextMut<JavaState>,
    reports: &mut Vec<BridgeError>,
) -> (stored: Result<Option<SlotValue>, BridgeError>)
    requires
        wasm_alloc matches Some(a) ==> a.bound_to(old(store)),
    ensures
        same_store(old(store), final(store)),
        reports_added(old(reports)@, final(reports)@),
        final(reports)@.len() <= old(reports)@.len() + 1,
        stored is Ok ==> final(reports)@ == old(reports)@,
        has_result ==> stored == Err::<Option<SlotValue>, BridgeError>(
            BridgeError::UnexpectedReturn,
        ),
        !has_result && ret_by_ref_ptr is None ==> stored == Err::<Option<SlotValue>, BridgeError>(
            BridgeError::MissingReturnPointer,
        ),
        !has_result && ret_by_ref_ptr is Some && wasm_alloc is None ==> stored == Err::<
            Option<SlotValue>,
            BridgeError,
        >(BridgeError::MissingAllocator),
        has_result || ret_by_ref_ptr is None || wasm_alloc is None ==> *final(store) == *old(store)
            && final(reports)@ == old(reports)@,
        !has_result && ret_by_ref_ptr is Some && wasm_alloc is Some ==> match stored {
            Ok(slot) => slot is None && (wasm_alloc->0.spec_obj(
                final(store),
                ret_by_ref_ptr->0,
            ) matches Ok(written) && written.ptr != 0 && written.spec_length() == bytes@.len()
                && (written.disjoint(record_at(ret_by_ref_ptr->0)) ==> wasm_alloc->0.bytes_at(
                final(store),
                written,
            ) == Some(bytes@))),
            Err(e) => result_failure(
                wasm_alloc->0,
                old(store),
                bytes@.len(),
                ret_by_ref_ptr->0,
                e,
            ),
        },
{
    if has_result {
        return Err(BridgeError::UnexpectedReturn);
    }
    let ptr = match ret_by_ref_ptr {
        Some(ptr) => ptr,
        None => {
            return Err(BridgeError::MissingReturnPointer);
        },
    };
    let wasm_alloc = match wasm_alloc {
        Some(wasm_alloc) => wasm_alloc,
        None => {
            return Err(BridgeError::MissingAllocator);
        },
    };
    let range = match wasm_alloc.alloc_bytes(bytes, store) {
        Ok(range) => range,
        Err(e) => {
            return Err(e);
        },
    };
    // store the descriptor in the return by ref record
    let ghost wasm_slice = range.spec_wasm_slice();
    match range.hand_over(ptr, store, reports) {
        Ok(()) => {
            proof {
                wasm_slice.lemma_record_roundtrip();
            }
            Ok(None)
        },
        Err(e) => Err(e),
    }
}

/// The kind of the value that a managed object carries, or `None` for an object of a class
/// without a kind.
pub open spec fn object_kind(obj: JavaObjectView) -> Option<WasmTy> {
    match obj {
        JavaObjectView::Long(_) => Some(WasmTy::Slot(SlotType::I64)),
        JavaObjectView::Integer(_) => Some(WasmTy::Slot(SlotType::I32)),
        JavaObjectView::Double(_) => Some(WasmTy::Slot(SlotType::F64)),
        JavaObjectView::Float(_) => Some(WasmTy::Slot(SlotType::F32)),
        JavaObjectView::ByteArray(_) => Some(WasmTy::ByteArray),
        JavaObjectView::String(_) => Some(WasmTy::String),
        JavaObjectView::ByteBuffer(_) => None,
        JavaObjectView::Other { name } => None,
    }
}

/// The kinds of the values that managed objects carry, where each of them carries one.
pub open spec fn object_kinds(objs: Seq<JavaObject>) -> Seq<WasmTy> {
    objs.map_values(|obj: JavaObject| object_kind(obj@)->0)
}

/// Whether `e` is the failure on the first of the arguments that carries no value: it names
/// the class of that argument.
pub open spec fn first_without_kind(args: Seq<JavaObject>, e: BridgeError) -> bool {
    exists|i: int|
        0 <= i < args.len() && object_kind(#[trigger] args[i]@) is None && (forall|j: int|
            0 <= j < i ==> object_kind(#[trigger] args[j]@) is Some) && (
        e matches BridgeError::UnsupportedObject { name } && spec_from_java(args[i]@) == Err::<
            WasmValView,
            Seq<char>,
        >(name@))
}

/// The values that the arguments of a call carry into the guest, in order. The first
/// argument of a class without a kind is an error that names the class.
pub fn classify_args<'j>(args: &'j [JavaObject]) -> (vals: Result<Vec<WasmVal<'j>>, BridgeError>)
    ensures
        vals is Ok <==> forall|i: int|
            0 <= i < args@.len() ==> object_kind(#[trigger] args@[i]@) is Some,
        vals matches Ok(v) ==> v@.len() == args@.len() && forall|i: int|
            0 <= i < args@.len() ==> spec_from_java(args@[i]@) == Ok::<WasmValView, Seq<char>>(
                (#[trigger] v@[i])@,
            ) && v@[i].spec_ty() == object_kind(args@[i]@)->0 && v@[i].spec_ty().supported(),
        vals matches Err(e) ==> first_without_kind(args@, e),
{
    let mut vals: Vec<WasmVal<'j>> = Vec::new();
    let mut i: usize = 0;
    while i < args.len()
        invariant
            i <= args@.len(),
            vals@.len() == i,
            forall|j: int| 0 <= j < i ==> object_kind(#[trigger] args@[j]@) is Some,
            forall|j: int|
                0 <= j < i ==> spec_from_java(args@[j]@) == Ok::<WasmValView, Seq<char>>(
                    (#[trigger] vals@[j])@,
                ) && vals@[j].spec_ty() == object_kind(args@[j]@)->0
                    && vals@[j].spec_ty().supported(),
        decreases args@.len() - i,
    {
        match from_java(&args[i]) {
            Ok(val) => {
                vals.push(val);
            },
            Err(e) => {
                return Err(e);
            },
        }
        i = i + 1;
    }
    Ok(vals)
}

/// Whether every allocation in a list was made through the given allocator.
pub open spec fn made_through(
    droppers: Seq<WasmSliceWrapper<'_>>,
    wasm_alloc: Option<&WasmAlloc>,
) -> bool {
    forall|i: int|
        0 <= i < droppers.len() ==> wasm_alloc == Some((#[trigger] droppers[i]).allocator())
}

/// The descriptors of a list of allocations, in order.
pub open spec fn guarded(droppers: Seq<WasmSliceWrapper<'_>>) -> Seq<WasmSlice> {
    droppers.map_values(|w: WasmSliceWrapper| w.spec_wasm_slice())
}

/// The slots that a list of values takes in an argument list, where `ranges` are the ranges
/// of guest memory that hold the bytes of those that carry any, in order: a scalar takes
/// its own slot, and bytes and text take the offset and the length of their range. `None`
/// where the ranges are not one for each such value, as long as its bytes and away from
/// offset 0.
pub open spec fn spec_arg_slots(vals: Seq<WasmVal<'_>>, ranges: Seq<WasmSlice>) -> Option<
    Seq<SlotValue>,
>
    decreases vals.len(),
{
    if vals.len() == 0 {
        if ranges.len() == 0 {
            Some(Seq::empty())
        } else {
            None
        }
    } else {
        match vals.last()@ {
            WasmValView::Val(v) => match spec_arg_slots(vals.drop_last(), ranges) {
                Some(slots) => Some(slots.push(v)),
                None => None,
            },
            _ => if ranges.len() > 0 && ranges.last().ptr != 0 && ranges.last().spec_length()
                == vals.last().payload()->0.len() {
                match spec_arg_slots(vals.drop_last(), ranges.drop_last()) {
                    Some(slots) => Some(slots + ranges.last().to_args()),
                    None => None,
                }
            } else {
                None
            },
        }
    }
}

/// Whether no range of guest memory can be had: there is no allocator, or its allocation
/// routine is of another type than the agreed one.
pub open spec fn cannot_allocate(wasm_alloc: Option<&WasmAlloc>) -> bool {
    match wasm_alloc {
        None => true,
        Some(a) => !a.allocates_by_size(),
    }
}

/// Whether one of the values carries bytes or text, which have to go through guest memory.
pub open spec fn carries_bytes(vals: Seq<WasmVal<'_>>) -> bool {
    exists|i: int| 0 <= i < vals.len() && (#[trigger] vals[i]).payload() is Some
}

/// Places the values of a call at the end of an argument list, in order: a scalar in its
/// slot, bytes and text as the offset and the length of a fresh range of guest memory that
/// holds them. Each such range leaves its allocation at the end of `droppers`: they are the
/// host's to free after the call, also where storing failed half way. Without an allocator
/// the first value that carries bytes or text ends the call, and nothing was touched.
fn store_args<'w>(
    vals: &Vec<WasmVal<'_>>,
    wasm_args: &mut Vec<SlotValue>,
    droppers: &mut Vec<WasmSliceWrapper<'w>>,
    wasm_alloc: Option<&'w WasmAlloc>,
    store: &mut wasmtime::StoreContextMut<JavaState>,
) -> (stored: Result<(), BridgeError>)
    requires
        wasm_alloc matches Some(a) ==> a.bound_to(old(store)),
        forall|i: int| 0 <= i < vals@.len() ==> (#[trigger] vals@[i]).spec_ty().supported(),
        made_through(old(droppers)@, wasm_alloc),
    ensures
        same_store(old(store), final(store)),
        made_through(final(droppers)@, wasm_alloc),
        old(droppers)@.len() <= final(droppers)@.len(),
        final(droppers)@.take(old(droppers)@.len() as int) == old(droppers)@,
        stored is Ok ==> (spec_arg_slots(
            vals@,
            guarded(final(droppers)@.skip(old(droppers)@.len() as int)),
        ) matches Some(slots) && final(wasm_args)@ == old(wasm_args)@ + slots),
        stored is Ok ==> slot_tys(final(wasm_args)@) == slot_tys(old(wasm_args)@) + flat_arg_tys(
            vals@.map_values(|val: WasmVal| val.spec_ty()),
        ),
        stored matches Err(e) ==> (if wasm_alloc is None {
            e == BridgeError::MissingAllocator
        } else {
            memory_failure(e) || e is GuestTrap
        }),
        cannot_allocate(wasm_alloc) ==> (stored is Err <==> carries_bytes(vals@)),
        cannot_allocate(wasm_alloc) || !carries_bytes(vals@) ==> *final(store) == *old(store),
        cannot_allocate(wasm_alloc) || !carries_bytes(vals@) ==> final(droppers)@ == old(
            droppers,
        )@,
        !carries_bytes(vals@) ==> stored is Ok,
{
    let ghost kinds = vals@.map_values(|val: WasmVal| val.spec_ty());
    let ghost first = old(droppers)@.len() as int;
    let mut i: usize = 0;
    proof {
        assert(guarded(droppers@.skip(first)) =~= Seq::<WasmSlice>::empty());
        assert(wasm_args@ =~= old(wasm_args)@ + Seq::<SlotValue>::empty());
        assert(droppers@.take(first) =~= old(droppers)@);
    }
    while i < vals.len()
        invariant
            i <= vals@.len(),
            kinds == vals@.map_values(|val: WasmVal| val.spec_ty()),
            first == old(droppers)@.len(),
            same_store(old(store), store),
            wasm_alloc matches Some(a) ==> a.bound_to(store),
            forall|k: int| 0 <= k < vals@.len() ==> (#[trigger] vals@[k]).spec_ty().supported(),
            made_through(droppers@, wasm_alloc),
            first <= droppers@.len(),
            droppers@.take(first) == old(droppers)@,
            slot_tys(wasm_args@) == slot_tys(old(wasm_args)@) + flat_arg_tys(kinds.take(i as int)),
            spec_arg_slots(vals@.take(i as int), guarded(droppers@.skip(first))) matches Some(
                slots,
            ) && wasm_args@ == old(wasm_args)@ + slots,
            cannot_allocate(wasm_alloc) ==> *store == *old(store) && droppers@ == old(droppers)@,
            forall|k: int|
                0 <= k < i ==> cannot_allocate(wasm_alloc) ==> (#[trigger] vals@[k]).payload()
                    is None,
            (forall|k: int| 0 <= k < i ==> (#[trigger] vals@[k]).payload() is None) ==> *store
                == *old(store) && droppers@ == old(droppers)@,
        decreases vals@.len() - i,
    {
        let ghost before = wasm_args@;
        let ghost ranges = guarded(droppers@.skip(first));
        let ghost slots = spec_arg_slots(vals@.take(i as int), ranges)->0;
        proof {
            assert(kinds.take(i + 1).drop_last() =~= kinds.take(i as int));
            assert(vals@.take(i + 1).drop_last() =~= vals@.take(i as int));
            assert(vals@.take(i + 1).last() == vals@[i as int]);
        }
        match vals[i].store_to_args(wasm_args, wasm_alloc, store) {
            Ok(Some(dropper)) => {
                proof {
                    assert(slot_tys(wasm_args@) =~= slot_tys(before)
                        + vals@[i as int].spec_ty().arg_tys());
                }
                droppers.push(dropper);
                proof {
                    let grown = guarded(droppers@.skip(first));
                    assert(grown =~= ranges.push(dropper.spec_wasm_slice()));
                    assert(grown.drop_last() =~= ranges);
                    assert(droppers@.take(first) =~= old(droppers)@);
                    assert(wasm_args@ =~= old(wasm_args)@ + (slots
                        + dropper.spec_wasm_slice().to_args()));
                }
            },
            Ok(None) => {
                proof {
                    assert(slot_tys(wasm_args@) =~= slot_tys(before)
                        + vals@[i as int].spec_ty().arg_tys());
                    assert(wasm_args@ =~= old(wasm_args)@ + slots.push(
                        vals@[i as int]@->Val_0,
                    ));
                }
            },
            Err(e) => {
                return Err(e);
            },
        }
        i = i + 1;
    }
    proof {
        assert(kinds.take(i as int) =~= kinds);
        assert(vals@.take(i as int) =~= vals@);
    }
    Ok(())
}

/// Frees the allocations that the host made for the arguments of a call: the guest only
/// read them, and the host frees what it allocated. Every allocation is taken from the list
/// and handed back to the guest, the last one first. That the guest fails to free one does
/// not keep the others from being freed: each failure is added to `reports`, and a routine
/// that cannot free fails for every one of them. Without an allocation to free, the guest is
/// not called.
fn free_all<'w>(
    droppers: &mut Vec<WasmSliceWrapper<'w>>,
    wasm_alloc: Option<&'w WasmAlloc>,
    store: &mut wasmtime::StoreContextMut<JavaState>,
    reports: &mut Vec<BridgeError>,
)
    requires
        wasm_alloc matches Some(a) ==> a.bound_to(old(store)),
        made_through(old(droppers)@, wasm_alloc),
    ensures
        same_store(old(store), final(store)),
        final(droppers)@.len() == 0,
        reports_added(old(reports)@, final(reports)@),
        final(reports)@.len() <= old(reports)@.len() + old(droppers)@.len(),
        wasm_alloc matches Some(a) && !a.frees_by_offset_and_length() ==> final(reports)@.len()
            == old(reports)@.len() + old(droppers)@.len(),
        old(droppers)@.len() == 0 ==> *final(store) == *old(store),
{
    while droppers.len() > 0
        invariant
            same_store(old(store), store),
            wasm_alloc matches Some(a) ==> a.bound_to(store),
            made_through(droppers@, wasm_alloc),
            old(droppers)@.len() == 0 ==> *store == *old(store),
            droppers@.len() <= old(droppers)@.len(),
            reports_added(old(reports)@, reports@),
            reports@.len() + droppers@.len() <= old(reports)@.len() + old(droppers)@.len(),
            wasm_alloc matches Some(a) && !a.frees_by_offset_and_length() ==> reports@.len()
                + droppers@.len() == old(reports)@.len() + old(droppers)@.len(),
        decreases droppers@.len(),
    {
        let ghost last = droppers@.last();
        let dropper = droppers.pop();
        proof {
            assert(wasm_alloc == Some(last.allocator()));
        }
        release(dropper, store, reports);
    }
}

/// Whether `e` is what stands in the way of a call before the guest is touched, for
/// arguments that all carry a value: a return class without a kind, or else a guest function
/// with more than one result, or else real slot types `found` that disagree with the kinds
/// of the arguments and of the return.
pub open spec fn spec_refused(
    args: Seq<JavaObject>,
    return_type: JavaClass,
    found: (Seq<SlotType>, Seq<SlotType>),
    e: BridgeError,
) -> bool {
    match class_kind(return_type, true) {
        None => undeclarable(return_type, true, e),
        Some(ret) => if found.1.len() > 1 {
            e == (BridgeError::MultipleReturns { count: found.1.len() as usize })
        } else {
            spec_check(spec_params(object_kinds(args), ret), spec_results(ret), found.0, found.1)
                == Err::<(), BridgeError>(e)
        },
    }
}

/// Whether a call can be made: every argument carries a value, the return class is
/// declarable, the guest function has at most one result, and its real slot types `found`
/// agree with the kinds of the arguments and of the return.
pub open spec fn spec_accepted(
    args: Seq<JavaObject>,
    return_type: JavaClass,
    found: (Seq<SlotType>, Seq<SlotType>),
) -> bool {
    &&& forall|i: int| 0 <= i < args.len() ==> object_kind(#[trigger] args[i]@) is Some
    &&& class_kind(return_type, true) matches Some(ret) && found.1.len() <= 1 && spec_check(
        spec_params(object_kinds(args), ret),
        spec_results(ret),
        found.0,
        found.1,
    ) is Ok
}

/// Whether a call has to go through guest memory: an argument carries bytes or text, or the
/// return class is one whose values return by reference.
pub open spec fn needs_memory(args: Seq<JavaObject>, return_type: JavaClass) -> bool {
    ||| exists|i: int|
        0 <= i < args.len() && (#[trigger] object_kind(args[i]@) matches Some(kind) && !(kind
            is Slot))
    ||| class_kind(return_type, true) matches Some(Some(kind)) && kind.return_ty() is None
}

/// Invokes a guest function from managed code.
///
/// Each argument is classified by the value it carries, and the return by its declared
/// class. The kinds are held against the real slot types of the function; where they
/// disagree, or anything else stands in the way, the call fails before the guest is touched.
/// Then scalars go into their slots, and bytes and text are copied into freshly allocated
/// guest memory. A return by reference gets its record. After the call the result is read,
/// and the host frees what it allocated for the arguments, the record, and the range of a
/// value returned by reference. A trap of the guest is a failure of this call only. A call
/// that has to go through guest memory fails for a guest without an allocator, and for one
/// whose allocation routine is of another type than the agreed one, before the guest is
/// touched; a call of scalars only needs neither. That the guest fails to free is no failure of the call: each such
/// failure is added to `reports`, for the caller to make known.
pub fn call<'w>(
    func: &wasmtime::Func,
    wasm_alloc: Option<&'w WasmAlloc>,
    store: &mut wasmtime::StoreContextMut<JavaState>,
    args: &[JavaObject],
    return_type: &JavaClass,
    reports: &mut Vec<BridgeError>,
) -> (returned: Result<Option<JavaObject>, BridgeError>)
    requires
        callable(old(store), func),
        wasm_alloc matches Some(a) ==> a.bound_to(old(store)),
    ensures
        same_store(old(store), final(store)),
        reports_added(old(reports)@, final(reports)@),
        !spec_accepted(args@, *return_type, func_ty(func)) ==> returned is Err && *final(store)
            == *old(store) && final(reports)@ == old(reports)@,
        spec_accepted(args@, *return_type, func_ty(func)) && wasm_alloc is None && needs_memory(
            args@,
            *return_type,
        ) ==> returned == Err::<Option<JavaObject>, BridgeError>(BridgeError::MissingAllocator)
            && *final(store) == *old(store),
        returned == Err::<Option<JavaObject>, BridgeError>(BridgeError::MissingAllocator)
            ==> wasm_alloc is None && needs_memory(args@, *return_type),
        spec_accepted(args@, *return_type, func_ty(func)) ==> (returned matches Err(e) ==> (
        if needs_memory(args@, *return_type) {
            e is GuestTrap || memory_failure(e) || e == BridgeError::MissingAllocator
        } else {
            e is GuestTrap
        })),
        spec_accepted(args@, *return_type, func_ty(func)) && needs_memory(args@, *return_type)
            && cannot_allocate(wasm_alloc) ==> returned is Err && *final(store) == *old(store)
            && final(reports)@ == old(reports)@,
        wasm_alloc is None || !needs_memory(args@, *return_type) ==> final(reports)@ == old(
            reports,
        )@,
        (forall|i: int| 0 <= i < args@.len() ==> object_kind(#[trigger] args@[i]@) is Some)
            && !spec_accepted(args@, *return_type, func_ty(func)) ==> (returned matches Err(e)
            && spec_refused(args@, *return_type, func_ty(func), e)),
        (exists|i: int| 0 <= i < args@.len() && object_kind(#[trigger] args@[i]@) is None) ==> (
        returned matches Err(e) && first_without_kind(args@, e)),
        returned matches Ok(r) ==> match class_kind(*return_type, true) {
            Some(Some(kind)) => r matches Some(obj) && object_kind(obj@) == Some(kind),
            _ => r is None,
        },
{
    // we need to convert all the parameters to slot values for the call
    let vals = classify_args(args)?;
    // now we may need to add a return by reference parameter
    let wasm_return_ty = from_java_class(return_type, true)?;
    let (real_params, real_results) = func_signature(func, store);
    if real_results.len() > 1 {
        return Err(BridgeError::MultipleReturns { count: real_results.len() });
    }
    let mut kinds: Vec<WasmTy> = Vec::new();
    let mut i: usize = 0;
    while i < vals.len()
        invariant
            i <= vals@.len(),
            vals@.len() == args@.len(),
            kinds@.len() == i,
            forall|j: int|
                0 <= j < vals@.len() ==> (#[trigger] vals@[j]).spec_ty() == object_kind(
                    args@[j]@,
                )->0 && vals@[j].spec_ty().supported(),
            forall|j: int| 0 <= j < i ==> (#[trigger] kinds@[j]) == vals@[j].spec_ty(),
        decreases vals@.len() - i,
    {
        kinds.push(vals[i].ty());
        i = i + 1;
    }
    proof {
        assert(kinds@ =~= object_kinds(args@));
    }
    let signature = CallSignature { params: kinds, ret: wasm_return_ty };
    match signature.matches(real_params.as_slice(), real_results.as_slice()) {
        Ok(()) => {},
        Err(e) => {
            return Err(e);
        },
    }
    proof {
        if exists|i: int|
            0 <= i < args@.len() && (#[trigger] object_kind(args@[i]@) matches Some(kind) && !(kind
                is Slot)) {
            let i = choose|i: int|
                0 <= i < args@.len() && (#[trigger] object_kind(args@[i]@) matches Some(kind)
                    && !(kind is Slot));
            assert(vals@[i].payload() is Some);
            assert(carries_bytes(vals@));
        }
        if carries_bytes(vals@) {
            let i = choose|i: int| 0 <= i < vals@.len() && (#[trigger] vals@[i]).payload() is Some;
            assert(object_kind(args@[i]@) == Some(vals@[i].spec_ty()));
            assert(needs_memory(args@, *return_type));
        }
        assert(func_ty(func).1 =~= spec_results(wasm_return_ty));
    }
    // the droppers will free the allocated memory in the guest after the call
    let mut wasm_args: Vec<SlotValue> = Vec::new();
    let mut wasm_droppers: Vec<WasmSliceWrapper<'w>> = Vec::new();
    let stored = store_args(&vals, &mut wasm_args, &mut wasm_droppers, wasm_alloc, store);
    let returned = match stored {
        Err(e) => Err(e),
        Ok(()) => invoke(func, wasm_return_ty, wasm_args, wasm_alloc, store, reports),
    };
    free_all(&mut wasm_droppers, wasm_alloc, store, reports);
    returned
}

/// The slot types that a call hands to the guest: those of the stored arguments, and one
/// trailing 32-bit slot for a return by reference.
pub open spec fn passed_tys(args: Seq<SlotType>, ret: Option<WasmTy>) -> Seq<SlotType> {
    match ret {
        Some(kind) => if kind.return_ty() is None {
            args.push(SlotType::I32)
        } else {
            args
        },
        None => args,
    }
}

/// Whether a declared return takes a record in guest memory.
pub open spec fn returns_by_reference(ret: Option<WasmTy>) -> bool {
    ret matches Some(kind) && kind.return_ty() is None
}

/// Makes the call into the guest with the arguments as they are stored, and loads the
/// result, for a function whose results are those of the declared return. A return by
/// reference gets its record first, which takes an allocator that can allocate; the
/// record's offset is the last slot handed to the guest. The call comes back well only
/// from a function of the type that was called: its parameters are the slots handed to it,
/// and a scalar return is its first result. Whatever the outcome, the record is freed before
/// this returns, and a failure to free it is added to `reports`.
fn invoke(
    func: &wasmtime::Func,
    wasm_return_ty: Option<WasmTy>,
    wasm_args: Vec<SlotValue>,
    wasm_alloc: Option<&WasmAlloc>,
    store: &mut wasmtime::StoreContextMut<JavaState>,
    reports: &mut Vec<BridgeError>,
) -> (returned: Result<Option<JavaObject>, BridgeError>)
    requires
        callable(old(store), func),
        func_ty(func).1 == spec_results(wasm_return_ty),
        wasm_alloc matches Some(a) ==> a.bound_to(old(store)),
        wasm_return_ty matches Some(kind) ==> kind.supported() && !(kind is ByteBuffer),
    ensures
        same_store(old(store), final(store)),
        reports_added(old(reports)@, final(reports)@),
        wasm_alloc is None || !returns_by_reference(wasm_return_ty) ==> final(reports)@ == old(
            reports,
        )@,
        wasm_return_ty matches Some(kind) && kind.return_ty() is None && wasm_alloc is None
            ==> *final(store) == *old(store),
        returned matches Ok(r) ==> match wasm_return_ty {
            Some(kind) => r matches Some(obj) && object_kind(obj@) == Some(kind),
            None => r is None,
        },
        returned is Ok ==> func_ty(func).0 == passed_tys(slot_tys(wasm_args@), wasm_return_ty),
        returned is Ok ==> (wasm_return_ty matches Some(WasmTy::Slot(ty)) ==> func_ty(
            func,
        ).1.len() > 0 && func_ty(func).1[0] == ty),
        wasm_return_ty matches Some(kind) && kind.return_ty() is None && wasm_alloc is None
            ==> returned == Err::<Option<JavaObject>, BridgeError>(BridgeError::MissingAllocator),
        returned matches Err(e) ==> (if returns_by_reference(wasm_return_ty) {
            e is GuestTrap || memory_failure(e) || e == BridgeError::MissingAllocator
        } else {
            e is GuestTrap
        }),
        returns_by_reference(wasm_return_ty) && cannot_allocate(wasm_alloc) ==> returned is Err
            && *final(store) == *old(store) && final(reports)@ == old(reports)@,
        returned == Err::<Option<JavaObject>, BridgeError>(BridgeError::MissingAllocator)
            ==> wasm_alloc is None,
{
    let ghost given = slot_tys(wasm_args@);
    let mut wasm_args = wasm_args;
    let maybe_ret_by_ref = match wasm_return_ty {
        Some(wasm_return_ty) => wasm_return_ty.return_or_store_to_arg(
            &mut wasm_args,
            wasm_alloc,
            store,
        )?,
        None => None,
    };
    proof {
        assert(slot_tys(wasm_args@) =~= passed_tys(given, wasm_return_ty));
    }
    // call the function
    let val = match call_guest(func, store, wasm_args.as_slice()) {
        Ok(val) => val,
        Err(trap) => {
            release(maybe_ret_by_ref, store, reports);
            return Err(trap);
        },
    };
    match wasm_return_ty {
        Some(wasm_return_ty) => {
            let ret = if val.len() > 0 {
                Some(&val[0])
            } else {
                None
            };
            let obj = return_or_load_or_from_arg(
                wasm_return_ty,
                ret,
                maybe_ret_by_ref,
                wasm_alloc,
                store,
                reports,
            )?;
            Ok(Some(obj))
        },
        None => {
            release(maybe_ret_by_ref, store, reports);
            Ok(None)
        },
    }
}

/// Whether `image` is what the module that called into the host lets the host read: a
/// memory of the caller's store, as it is at this moment, where the module exports its
/// memory and both allocation routines, and `None` where it does not.
pub open spec fn caller_image(
    caller: &wasmtime::Caller<JavaState>,
    image: Option<Seq<u8>>,
) -> bool {
    &&& image is Some <==> caller_exchanges_bytes(caller)
    &&& image matches Some(bytes) ==> exists|memory: wasmtime::Memory|
        bytes == #[trigger] caller_linear_memory(caller, &memory)
}

/// The first half of a call of the guest into a managed callback, from inside the host
/// function: resolves the allocator of the calling module, which may have none, and loads
/// the arguments as [`CallSignature::load_args`] does, from the memory of the caller as it
/// is at this moment. Scalars of the declared types load whatever the module exports. A
/// kind that lives in guest memory fails for a module that has no allocator.
pub fn callback_args(
    signature: &CallSignature,
    caller: &mut wasmtime::Caller<JavaState>,
    inputs: &[SlotValue],
) -> (loaded: Result<CallbackArgs, BridgeError>)
    requires
        !caller_runs_async(old(caller)),
    ensures
        same_caller(old(caller), final(caller)),
        spec_matches(flat_arg_tys(signature.params()), slot_tys(inputs@), 0) matches Err(mismatch)
            ==> loaded == Err::<CallbackArgs, BridgeError>(
            BridgeError::SignatureMismatch(mismatch),
        ),
        spec_matches(flat_arg_tys(signature.params()), slot_tys(inputs@), 0) is Ok
            ==> exists|image: Option<Seq<u8>>| #[trigger]
            caller_image(old(caller), image) && match spec_load_args(
                signature.params(),
                inputs@,
                image,
            ) {
                Err(e) => loaded == Err::<CallbackArgs, BridgeError>(e),
                Ok((objs, rest)) => loaded matches Ok(call) && objects_view(call.args@) == objs
                    && call.ret_by_ref_ptr == spec_ret_ptr(signature.ret(), rest),
            },
        spec_matches(flat_arg_tys(signature.params()), slot_tys(inputs@), 0) is Ok
            && !caller_exchanges_bytes(old(caller)) ==> match spec_load_args(
            signature.params(),
            inputs@,
            None,
        ) {
            Err(e) => loaded == Err::<CallbackArgs, BridgeError>(e),
            Ok((objs, rest)) => loaded matches Ok(call) && objects_view(call.args@) == objs
                && call.ret_by_ref_ptr == spec_ret_ptr(signature.ret(), rest),
        },
        spec_matches(flat_arg_tys(signature.params()), slot_tys(inputs@), 0) is Ok && scalars_only(
            signature.params(),
        ) ==> (loaded matches Ok(call) && objects_view(call.args@) == boxed_scalars(
            inputs@,
            signature.params().len(),
        ) && call.ret_by_ref_ptr == spec_ret_ptr(
            signature.ret(),
            inputs@.skip(signature.params().len() as int),
        )),
        loaded matches Ok(call) ==> call.args@.len() == signature.params().len(),
{
    let wasm_alloc = WasmAlloc::from_caller(caller);
    let store = caller_context(caller);
    let wasm_alloc = wasm_alloc.as_ref();
    proof {
        let image = spec_image(wasm_alloc, &store);
        if wasm_alloc is Some {
            let a = wasm_alloc->0;
            assert(a.image(&store) == caller_linear_memory(old(caller), &a.exports().0));
        }
        assert(caller_image(old(caller), image));
        if scalars_only(signature.params()) && spec_matches(
            flat_arg_tys(signature.params()),
            slot_tys(inputs@),
            0,
        ) is Ok {
            lemma_scalars_load(signature.params(), inputs@, image);
        }
    }
    signature.load_args(inputs, wasm_alloc, &store)
}

/// Whether a store of the identity `id` can hold, through some allocator of its own, the
/// bytes of a callback's result as they were handed to the guest: the record at `ptr`
/// carries the descriptor of a range as long as `bytes` and away from offset 0, and the
/// range reads as `bytes` unless the guest's allocator put it on top of the record.
pub open spec fn result_handed(id: int, ptr: i32, bytes: Seq<u8>) -> bool {
    exists|after: wasmtime::StoreContextMut<JavaState>, a: WasmAlloc|
        a.owned_by(id) && store_id(&after) == id && (#[trigger] a.spec_obj(&after, ptr) matches Ok(
            written,
        ) && written.ptr != 0 && written.spec_length() == bytes.len() && (written.disjoint(
            record_at(ptr),
        ) ==> a.bytes_at(&after, written) == Some(bytes)))
}

/// Whether `e` is what handing `size` bytes of a callback's result to the calling module
/// fails with: what [`spec_result_failure`] says for one of the memories of the caller's
/// store, as it is at this moment.
pub open spec fn caller_result_failure(
    caller: &wasmtime::Caller<JavaState>,
    size: nat,
    ptr: i32,
    e: BridgeError,
) -> bool {
    exists|memory: wasmtime::Memory, agreed: bool| #[trigger]
        spec_result_failure(caller_linear_memory(caller, &memory).len(), agreed, size, ptr, e)
}

/// The second half of a call of the guest into a managed callback, from inside the host
/// function: resolves the allocator of the calling module, which may have none, and hands
/// the result of the callback to the guest as [`store_result`] does, through the store the
/// caller runs in.
pub fn callback_result(
    caller: &mut wasmtime::Caller<JavaState>,
    val: Option<WasmVal<'_>>,
    has_result: bool,
    ret_by_ref_ptr: Option<i32>,
    reports: &mut Vec<BridgeError>,
) -> (stored: Result<Option<SlotValue>, BridgeError>)
    requires
        !caller_runs_async(old(caller)),
    ensures
        same_caller(old(caller), final(caller)),
        reports_added(old(reports)@, final(reports)@),
        final(reports)@.len() <= old(reports)@.len() + 1,
        stored is Ok ==> final(reports)@ == old(reports)@,
        spec_result_slot(
            spec_val(val),
            has_result,
            ret_by_ref_ptr,
            caller_exchanges_bytes(old(caller)),
        ) matches Err(e) ==> stored == Err::<Option<SlotValue>, BridgeError>(e) && final(reports)@
            == old(reports)@,
        spec_result_slot(
            spec_val(val),
            has_result,
            ret_by_ref_ptr,
            caller_exchanges_bytes(old(caller)),
        ) matches Ok(slot) ==> (match spec_payload(val) {
            None => stored == Ok::<Option<SlotValue>, BridgeError>(slot),
            Some(bytes) => match stored {
                Ok(slot) => slot is None && result_handed(
                    caller_store(old(caller)),
                    ret_by_ref_ptr->0,
                    bytes,
                ),
                Err(e) => caller_result_failure(old(caller), bytes.len(), ret_by_ref_ptr->0, e),
            },
        }),
{
    let wasm_alloc = WasmAlloc::from_caller(caller);
    let mut store = caller_context(caller);
    let stored = store_result(
        val,
        has_result,
        ret_by_ref_ptr,
        wasm_alloc.as_ref(),
        &mut store,
        reports,
    );
    proof {
        if spec_payload(val) is Some && wasm_alloc is Some && !has_result && ret_by_ref_ptr
            is Some {
            let a = wasm_alloc->0;
            if stored is Ok {
                assert(a.spec_obj(&store, ret_by_ref_ptr->0) is Ok);
                assert(result_handed(
                    caller_store(old(caller)),
                    ret_by_ref_ptr->0,
                    spec_payload(val)->0,
                ));
            } else {
                assert(spec_result_failure(
                    caller_linear_memory(old(caller), &a.exports().0).len(),
                    a.allocates_by_size(),
                    spec_payload(val)->0.len(),
                    ret_by_ref_ptr->0,
                    stored->Err_0,
                ));
            }
        }
    }
    stored
}

/// Bytes survive the way through guest memory and call slots: where the range of a
/// descriptor reads as `bytes`, the two slots that carry the descriptor load as a byte
/// array of exactly those bytes, as a text of their lossy decoding, and as a direct buffer
/// over the range; and the slots that follow are left for the next kind.
pub proof fn lemma_stored_bytes_load_back(
    wasm_alloc: &WasmAlloc,
    store: &wasmtime::StoreContextMut<JavaState>,
    slice: WasmSlice,
    bytes: Seq<u8>,
    rest: Seq<SlotValue>,
)
    requires
        wasm_alloc.spec_read(store, slice) == Ok::<Seq<u8>, BridgeError>(bytes),
    ensures
        spec_load_arg(
            WasmTy::ByteArray,
            slice.to_args() + rest,
            Some(wasm_alloc.image(store)),
        ) == Ok::<
            (JavaObjectView, Seq<SlotValue>),
            BridgeError,
        >((JavaObjectView::ByteArray(bytes), rest)),
        spec_load_arg(
            WasmTy::String,
            slice.to_args() + rest,
            Some(wasm_alloc.image(store)),
        ) == Ok::<
            (JavaObjectView, Seq<SlotValue>),
            BridgeError,
        >((JavaObjectView::String(crate::text::utf8_lossy(bytes)), rest)),
        spec_load_arg(
            WasmTy::ByteBuffer,
            slice.to_args() + rest,
            Some(wasm_alloc.image(store)),
        ) == Ok::<
            (JavaObjectView, Seq<SlotValue>),
            BridgeError,
        >((JavaObjectView::ByteBuffer(slice), rest)),
{
    slice.lemma_args_roundtrip(rest);
    assert((slice.to_args() + rest).skip(2) =~= rest);
}

/// A failed call leaves the store usable: whatever a call into the guest did to the store,
/// and whether it returned a value, trapped or failed on the way, an allocator that was
/// bound to the store is bound to it afterwards, and a function that could be called through
/// the store can be called again.
pub proof fn lemma_store_stays_usable(
    before: &wasmtime::StoreContextMut<JavaState>,
    after: &wasmtime::StoreContextMut<JavaState>,
    wasm_alloc: &WasmAlloc,
    func: &wasmtime::Func,
)
    requires
        same_store(before, after),
    ensures
        wasm_alloc.bound_to(before) ==> wasm_alloc.bound_to(after),
        callable(before, func) ==> callable(after, func),
{
}

/// Slot types agree with themselves, whatever follows them.
pub proof fn lemma_no_mismatch_with_itself(tys: Seq<SlotType>, rest: Seq<SlotType>)
    ensures
        first_mismatch(tys, tys + rest) is None,
    decreases tys.len(),
{
    if tys.len() > 0 {
        assert((tys + rest).skip(1) =~= tys.skip(1) + rest);
        lemma_no_mismatch_with_itself(tys.skip(1), rest);
    }
}

/// A guest function of the type that a signature stands for passes for that signature: what
/// [`CallSignature::func_type`] makes, [`CallSignature::matches`] accepts.
pub proof fn lemma_signature_matches_its_type(params: Seq<WasmTy>, ret: Option<WasmTy>)
    ensures
        spec_check(
            spec_params(params, ret),
            spec_results(ret),
            spec_params(params, ret),
            spec_results(ret),
        ) is Ok,
{
    let tys = spec_params(params, ret);
    lemma_no_mismatch_with_itself(tys, Seq::empty());
    assert(tys + Seq::<SlotType>::empty() =~= tys);
}

} // verus!
