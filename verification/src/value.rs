//! Values whose static type has been forgotten, and the identities that tell them apart.

use std::any::Any;
use std::any::TypeId;
use vstd::prelude::*;

verus! {

/// `std::any::TypeId`, the runtime identity of a type. Nothing inside it is visible to
/// proofs; it is only compared and passed along.
#[verifier::external_type_specification]
#[verifier::external_body]
pub struct ExTypeId(TypeId);

/// What a value is once its static type is forgotten: every `'static` type qualifies.
///
/// The trait has no methods. It exists so that contracts can speak of "some value of
/// some type" as a `Box<dyn Erasable>`.
pub trait Erasable {

}

impl<T: 'static> Erasable for T {

}

/// A container that owns one value of any `'static` type and remembers which type it is.
///
/// It is a `Box<dyn Any>` of the standard library, which the verifier does not take as
/// a field. Proofs therefore do not look inside: what is in it is named by [`contents`],
/// and the identity recorded with it by [`stored_type`].
#[verifier::external_body]
#[derive(Debug)]
pub struct TypeErasedValue {
    inner: Box<dyn Any>,
}

/// The value inside `v` together with its type.
pub uninterp spec fn contents(v: TypeErasedValue) -> Box<dyn Erasable>;

/// The identity that `v` records for the type of its value: the `TypeId` of that type.
pub uninterp spec fn stored_type(v: TypeErasedValue) -> TypeId;

/// `x`, with its type `T`, as the contents of an erased value.
pub open spec fn pack<T: 'static>(x: T) -> Box<dyn Erasable> {
    Box::new(x)
}

/// `v` holds the value `x`, of type `T`.
pub open spec fn holds<T: 'static>(v: TypeErasedValue, x: T) -> bool {
    contents(v) == pack(x)
}

/// `v` holds a value of type `T`.
pub open spec fn is_a<T: 'static>(v: TypeErasedValue) -> bool {
    exists|x: T| holds(v, x)
}

/// `v` holds `x`, and nothing else of type `T`.
pub open spec fn holds_only<T: 'static>(v: TypeErasedValue, x: T) -> bool {
    &&& holds(v, x)
    &&& forall|y: T| holds(v, y) ==> y == x
}

/// The values of `T` can be told apart by codes made of integers: some coding of `T` in
/// `Seq<int>` gives different values different codes.
///
/// Integers, `bool` and `char` are plain ([`lemma_primitives_are_plain`]); another type
/// is shown to be plain by a coding of it ([`lemma_plain_by_code`]). A type is not plain
/// when a value of it carries more than integers can code, as a ghost function does.
/// What a container holds is one value for plain types only: of another type, a
/// container is known to hold what was put into it, and not that it holds nothing else.
pub open spec fn plain<T>() -> bool {
    exists|code: spec_fn(T) -> Seq<int>| one_to_one(code)
}

/// `code` gives different values different codes.
pub open spec fn one_to_one<T>(code: spec_fn(T) -> Seq<int>) -> bool {
    forall|a: T, b: T| #[trigger] code(a) == #[trigger] code(b) ==> a == b
}

/// `v` is what wrapping `x` gives: it holds `x`, and where `T` is plain nothing else of
/// type `T`.
pub open spec fn wraps<T: 'static>(v: TypeErasedValue, x: T) -> bool {
    &&& holds(v, x)
    &&& plain::<T>() ==> holds_only(v, x)
}

/// `found` is what extraction as a `T` gives for `v`: something that `v` holds as a `T`,
/// which is all that it holds where `T` is plain, and nothing if `v` holds no `T`.
pub open spec fn extracts<T: 'static>(v: TypeErasedValue, found: Option<&T>) -> bool {
    match found {
        Some(x) => wraps(v, *x),
        None => !is_a::<T>(v),
    }
}

/// `id` is the identity of `T`: the erased values that record `id` are exactly those
/// that hold a `T`.
pub open spec fn identifies<T: 'static>(id: TypeId) -> bool {
    forall|v: TypeErasedValue| #[trigger] stored_type(v) == id <==> is_a::<T>(v)
}

/// Boxes `value` and forgets its type, by `Box::new` and the coercion to
/// `Box<dyn Any>`. Trusted: the result holds `value` as a `T`; where `T` is plain, it
/// holds no other `T`.
#[verifier::external_body]
fn seal<T: 'static>(value: T) -> (r: TypeErasedValue)
    ensures
        contents(r) == pack(value),
        plain::<T>() ==> forall|x: T| contents(r) == pack(x) ==> x == value,
{
    TypeErasedValue { inner: Box::new(value) }
}

/// Calls `<dyn Any>::downcast_ref::<T>`. Trusted: an answer `Some(x)` is something that
/// `v` holds as a `T`, the answer is `None` exactly when `v` holds no `T`, and where `T`
/// is plain the answer is `Some(x)` for whatever `x` it is that `v` holds.
#[verifier::external_body]
fn unseal<T: 'static>(v: &TypeErasedValue) -> (r: Option<&T>)
    ensures
        r matches Some(x) ==> contents(*v) == pack(*x),
        r is None <==> !is_a::<T>(*v),
        plain::<T>() ==> forall|x: T| contents(*v) == pack(x) ==> r == Some(&x),
{
    v.inner.downcast_ref::<T>()
}

/// Calls `TypeId::of::<T>`. Trusted: an erased value records the answer as its type
/// exactly when it holds a `T`.
#[verifier::external_body]
pub(crate) fn identity_of<T: 'static>() -> (id: TypeId)
    ensures
        forall|v: TypeErasedValue| #[trigger] stored_type(v) == id <==> is_a::<T>(v),
{
    TypeId::of::<T>()
}

impl TypeErasedValue {
    /// Moves `value` into a new container, which then holds it as a `T`.
    pub fn wrap<T: 'static>(value: T) -> (r: TypeErasedValue)
        ensures
            wraps(r, value),
    {
        seal(value)
    }

    /// Something that the container holds as a `T`, if it holds a `T`, and `None` if it
    /// does not. Where `T` is plain, it is the one value that the container holds.
    pub fn try_extract<T: 'static>(&self) -> (r: Option<&T>)
        ensures
            extracts(*self, r),
    {
        unseal::<T>(self)
    }
}

/// A type is plain as soon as one coding of it is one to one.
pub proof fn lemma_plain_by_code<T>(code: spec_fn(T) -> Seq<int>)
    requires
        one_to_one(code),
    ensures
        plain::<T>(),
{
}

/// The integer types, `bool`, `char` and the unit type are plain.
pub proof fn lemma_primitives_are_plain()
    ensures
        plain::<u8>(),
        plain::<u16>(),
        plain::<u32>(),
        plain::<u64>(),
        plain::<u128>(),
        plain::<usize>(),
        plain::<i8>(),
        plain::<i16>(),
        plain::<i32>(),
        plain::<i64>(),
        plain::<i128>(),
        plain::<isize>(),
        plain::<bool>(),
        plain::<char>(),
        plain::<()>(),
{
    lemma_integer_coding(|x: u8| seq![x as int]);
    lemma_integer_coding(|x: u16| seq![x as int]);
    lemma_integer_coding(|x: u32| seq![x as int]);
    lemma_integer_coding(|x: u64| seq![x as int]);
    lemma_integer_coding(|x: u128| seq![x as int]);
    lemma_integer_coding(|x: usize| seq![x as int]);
    lemma_integer_coding(|x: i8| seq![x as int]);
    lemma_integer_coding(|x: i16| seq![x as int]);
    lemma_integer_coding(|x: i32| seq![x as int]);
    lemma_integer_coding(|x: i64| seq![x as int]);
    lemma_integer_coding(|x: i128| seq![x as int]);
    lemma_integer_coding(|x: isize| seq![x as int]);
    lemma_integer_coding(|x: bool| seq![if x { 1int } else { 0int }]);
    lemma_integer_coding(|x: char| seq![x as int]);
    lemma_integer_coding(|x: ()| seq![0int]);
}

/// A coding by one integer that tells the values of `T` apart shows that `T` is plain.
proof fn lemma_integer_coding<T>(code: spec_fn(T) -> Seq<int>)
    requires
        forall|a: T, b: T| #[trigger] code(a)[0] == #[trigger] code(b)[0] ==> a == b,
    ensures
        plain::<T>(),
{
    assert forall|a: T, b: T| #[trigger] code(a) == #[trigger] code(b) implies a == b by {
        assert(code(a)[0] == code(b)[0]);
    }
    assert(one_to_one(code));
}

/// A value that was wrapped as a `T` is found when it is extracted as a `T`, and where
/// `T` is plain it comes out unchanged.
pub proof fn lemma_wrap_then_extract<T: 'static>(value: T, v: TypeErasedValue, found: Option<&T>)
    requires
        wraps(v, value),
        extracts(v, found),
    ensures
        found is Some,
        plain::<T>() ==> found == Some(&value),
{
    assert(is_a::<T>(v));
}

/// A value of type `T` is not extracted as a `U` when the two types have different
/// identities.
pub proof fn lemma_extract_other_type<T: 'static, U: 'static>(
    value: T,
    v: TypeErasedValue,
    found: Option<&U>,
    t: TypeId,
    u: TypeId,
)
    requires
        holds(v, value),
        extracts(v, found),
        identifies::<T>(t),
        identifies::<U>(u),
        t != u,
    ensures
        found is None,
{
    assert(is_a::<T>(v));
    assert(stored_type(v) == t);
    if let Some(y) = found {
        assert(is_a::<U>(v));
    }
}

/// Two identities of one type are the same identity, as soon as some erased value holds
/// a value of that type.
pub proof fn lemma_identity_is_unique<T: 'static>(v: TypeErasedValue, a: TypeId, b: TypeId)
    requires
        is_a::<T>(v),
        identifies::<T>(a),
        identifies::<T>(b),
    ensures
        a == b,
{
    assert(stored_type(v) == a);
    assert(stored_type(v) == b);
}

} // verus!
