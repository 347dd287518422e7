//! How a signature judges an argument list, and the step that every call repeats for
//! each of its parameters: reading an argument as the parameter's type.

use crate::error::InvocationError;
use crate::value::holds;
use crate::value::identifies;
use crate::value::is_a;
use crate::value::stored_type;
use crate::value::TypeErasedValue;
use std::any::TypeId;
use vstd::prelude::*;

verus! {

/// The argument at index `i` records another type than the signature expects there.
pub open spec fn mismatched(signature: Seq<TypeId>, args: Seq<TypeErasedValue>, i: int) -> bool {
    stored_type(args[i]) != signature[i]
}

/// The argument list serves the signature: every parameter has an argument, and each of
/// these arguments records the type that its parameter expects. Arguments past the last
/// parameter are not looked at.
pub open spec fn admits(signature: Seq<TypeId>, args: Seq<TypeErasedValue>) -> bool {
    &&& signature.len() <= args.len()
    &&& forall|i: int| 0 <= i < signature.len() ==> !mismatched(signature, args, i)
}

/// `e` is the refusal that the argument list earns from the signature.
///
/// A list that is too short is refused for the first index it does not reach. A list that
/// is long enough is refused for the first argument of the wrong type, with the identity
/// expected there.
pub open spec fn refuses(
    signature: Seq<TypeId>,
    args: Seq<TypeErasedValue>,
    e: InvocationError,
) -> bool {
    match e {
        InvocationError::MissingArgument(index) => {
            &&& args.len() < signature.len()
            &&& index == args.len()
        },
        InvocationError::TypeMismatch(index, expected) => {
            &&& signature.len() <= args.len()
            &&& index < signature.len()
            &&& expected == signature[index as int]
            &&& mismatched(signature, args, index as int)
            &&& forall|j: int| 0 <= j < index ==> !mismatched(signature, args, j)
        },
    }
}

/// Against an identity that stands for `T`, an argument is of the wrong type exactly when
/// it holds no `T`.
pub proof fn lemma_mismatch_is_other_type<T: 'static>(
    signature: Seq<TypeId>,
    args: Seq<TypeErasedValue>,
    i: int,
)
    requires
        identifies::<T>(signature[i]),
    ensures
        mismatched(signature, args, i) <==> !is_a::<T>(args[i]),
{
    assert(stored_type(args[i]) == signature[i] <==> is_a::<T>(args[i]));
}

/// A refused argument list is not admitted, and it earns one refusal only.
pub proof fn lemma_refusal_is_decided(
    signature: Seq<TypeId>,
    args: Seq<TypeErasedValue>,
    e1: InvocationError,
    e2: InvocationError,
)
    requires
        refuses(signature, args, e1),
        refuses(signature, args, e2),
    ensures
        e1 == e2,
        !admits(signature, args),
{
}

/// An argument list is admitted or refused: when it is not admitted, some refusal is
/// earned.
pub proof fn lemma_admitted_or_refused(signature: Seq<TypeId>, args: Seq<TypeErasedValue>)
    requires
        signature.len() <= usize::MAX,
    ensures
        admits(signature, args) || exists|e: InvocationError| refuses(signature, args, e),
{
    if args.len() < signature.len() {
        let e = InvocationError::MissingArgument(args.len() as usize);
        assert(refuses(signature, args, e));
    } else if !admits(signature, args) {
        let i = first_mismatch(signature, args, signature.len() as int);
        let e = InvocationError::TypeMismatch(i as usize, signature[i]);
        assert(refuses(signature, args, e));
    }
}

/// The least index below `limit` at which the argument is of the wrong type.
proof fn first_mismatch(signature: Seq<TypeId>, args: Seq<TypeErasedValue>, limit: int) -> (i: int)
    requires
        0 <= limit <= signature.len(),
        exists|k: int| 0 <= k < limit && mismatched(signature, args, k),
    ensures
        0 <= i < limit,
        mismatched(signature, args, i),
        forall|j: int| 0 <= j < i ==> !mismatched(signature, args, j),
    decreases limit,
{
    if exists|k: int| 0 <= k < limit - 1 && mismatched(signature, args, k) {
        first_mismatch(signature, args, limit - 1)
    } else {
        limit - 1
    }
}

/// An argument list with fewer arguments than the signature has parameters is refused
/// with `MissingArgument`, for the first index that it does not reach, whatever the
/// arguments it does supply hold.
pub proof fn lemma_too_few_arguments(
    signature: Seq<TypeId>,
    args: Seq<TypeErasedValue>,
    e: InvocationError,
)
    requires
        args.len() < signature.len(),
    ensures
        !admits(signature, args),
        refuses(signature, args, e) <==> (e matches InvocationError::MissingArgument(index)
            && index == args.len()),
{
}

/// An argument of the wrong type at index `i` has the list refused with `TypeMismatch`
/// for that index and the identity expected there, when the list is long enough and the
/// arguments before `i` are of the right types; the arguments after `i` do not matter.
pub proof fn lemma_wrong_type_at(
    signature: Seq<TypeId>,
    args: Seq<TypeErasedValue>,
    i: int,
    e: InvocationError,
)
    requires
        signature.len() <= args.len(),
        0 <= i < signature.len(),
        mismatched(signature, args, i),
        forall|j: int| 0 <= j < i ==> !mismatched(signature, args, j),
    ensures
        !admits(signature, args),
        refuses(signature, args, e) <==> (e matches InvocationError::TypeMismatch(index, expected)
            && index == i && expected == signature[i]),
{
    if let InvocationError::TypeMismatch(index, expected) = e {
        if refuses(signature, args, e) {
            if index < i {
                assert(!mismatched(signature, args, index as int));
            }
        }
    }
}

/// An argument of the wrong type anywhere among the parameters has a list that is long
/// enough refused with `TypeMismatch`, at that index or before it.
pub proof fn lemma_wrong_type_somewhere(
    signature: Seq<TypeId>,
    args: Seq<TypeErasedValue>,
    i: int,
    e: InvocationError,
)
    requires
        signature.len() <= args.len(),
        0 <= i < signature.len(),
        mismatched(signature, args, i),
        refuses(signature, args, e),
    ensures
        !admits(signature, args),
        e matches InvocationError::TypeMismatch(index, expected) && index <= i && expected
            == signature[index as int],
{
}

/// Arguments past the last parameter change nothing: a list that reaches every parameter
/// is admitted, or refused, as it is with more arguments behind it.
pub proof fn lemma_surplus_is_ignored(
    signature: Seq<TypeId>,
    args: Seq<TypeErasedValue>,
    surplus: Seq<TypeErasedValue>,
    e: InvocationError,
)
    requires
        signature.len() <= args.len(),
    ensures
        admits(signature, args + surplus) <==> admits(signature, args),
        refuses(signature, args + surplus, e) <==> refuses(signature, args, e),
{
    let longer = args + surplus;
    assert(longer.len() == args.len() + surplus.len());
    assert forall|i: int| 0 <= i < signature.len() implies #[trigger] mismatched(
        signature,
        longer,
        i,
    ) == mismatched(signature, args, i) by {
        assert(longer[i] == args[i]);
    }
    assert forall|i: int| 0 <= i < signature.len() implies mismatched(signature, longer, i)
        == #[trigger] mismatched(signature, args, i) by {
        assert(longer[i] == args[i]);
    }
}

/// What `value` holds, read as a `T`, or the refusal for a value of another type.
/// `expected` is the identity of `T`, and `index` the place of `value` in its list.
pub(crate) fn typed_argument<'a, T: 'static>(
    value: &'a TypeErasedValue,
    index: usize,
    expected: TypeId,
) -> (r: Result<&'a T, InvocationError>)
    requires
        identifies::<T>(expected),
    ensures
        match r {
            Ok(x) => holds(*value, *x) && stored_type(*value) == expected,
            Err(e) => e == InvocationError::TypeMismatch(index, expected) && stored_type(*value)
                != expected,
        },
{
    match value.try_extract::<T>() {
        Some(x) => Ok(x),
        None => Err(InvocationError::TypeMismatch(index, expected)),
    }
}

/// The entry of `identities` at `index`, or `None` past the end.
pub(crate) fn identity_at(identities: &Vec<TypeId>, index: usize) -> (r: Option<TypeId>)
    ensures
        index < identities@.len() ==> r == Some(identities@[index as int]),
        index >= identities@.len() ==> r is None,
{
    if index < identities.len() {
        Some(identities[index])
    } else {
        None
    }
}

} // verus!
