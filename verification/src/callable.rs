//! The two capabilities of a bound function: being called with erased arguments, and
//! telling which types it expects and gives.

use crate::arguments::Arguments;
use crate::error::InvocationError;
use crate::validation::admits;
use crate::validation::refuses;
use crate::value::holds;
use crate::value::wraps;
use crate::value::TypeErasedValue;
use std::any::TypeId;
use vstd::prelude::*;

verus! {

/// Something that can be called with a list of erased arguments.
pub trait DynamicCallable {
    /// The identities that the parameters expect, in order. Its length is the arity.
    spec fn signature(&self) -> Seq<TypeId>;

    /// `out` is what wrapping gives for a result that the bound function may give for
    /// values that `args` hold. Where the types are plain, an argument holds one value
    /// and so does `out`, and this says which.
    spec fn may_answer(&self, args: Seq<TypeErasedValue>, out: TypeErasedValue) -> bool;

    /// Calls the bound function on what `arguments` hold, and wraps what it gives.
    ///
    /// The call succeeds exactly when the signature admits the arguments. Otherwise the
    /// bound function does not run and the refusal that the arguments earn is returned.
    fn call(&self, arguments: &dyn Arguments) -> (r: Result<TypeErasedValue, InvocationError>)
        ensures
            r is Ok <==> admits(self.signature(), arguments.values()),
            match r {
                Ok(out) => self.may_answer(arguments.values(), out),
                Err(e) => refuses(self.signature(), arguments.values(), e),
            },
    ;
}

/// Something that tells the types of its parameters and of its result without being
/// called.
pub trait DynamicIntrospectable {
    /// The identities of the parameter types, in order, as recorded at construction.
    spec fn parameter_types(&self) -> Seq<TypeId>;

    /// The identity of the result type, as recorded at construction.
    spec fn return_type(&self) -> TypeId;

    /// The identity of the parameter at `index`, or `None` when there is no such
    /// parameter.
    fn get_argument_type(&self, index: usize) -> (r: Option<TypeId>)
        ensures
            index < self.parameter_types().len() ==> r == Some(
                self.parameter_types()[index as int],
            ),
            index >= self.parameter_types().len() ==> r is None,
    ;

    /// The identity of the result type. It is always there.
    fn get_return_type(&self) -> (r: Option<TypeId>)
        ensures
            r == Some(self.return_type()),
    ;
}

/// `out` is what wrapping gives for a result that `f` may give when called without
/// arguments.
pub open spec fn answers_0<F, Out>(f: F, out: TypeErasedValue) -> bool where
    F: Fn() -> Out,
    Out: 'static,
 {
    exists|o: Out| #[trigger] call_ensures(f, (), o) && wraps(out, o)
}

/// `out` is what wrapping gives for a result that `f` may give for a value that
/// `args[0]` holds.
pub open spec fn answers_1<F, Arg, Out>(
    f: F,
    args: Seq<TypeErasedValue>,
    out: TypeErasedValue,
) -> bool where
    F: Fn(&Arg) -> Out,
    Arg: 'static,
    Out: 'static,
 {
    exists|a: Arg, o: Out|
        {
            &&& holds(args[0], a)
            &&& #[trigger] call_ensures(f, (&a,), o)
            &&& wraps(out, o)
        }
}

/// `out` is what wrapping gives for a result that `f` may give for values that
/// `args[0]` and `args[1]` hold, in this order.
pub open spec fn answers_2<F, Arg1, Arg2, Out>(
    f: F,
    args: Seq<TypeErasedValue>,
    out: TypeErasedValue,
) -> bool where
    F: Fn(&Arg1, &Arg2) -> Out,
    Arg1: 'static,
    Arg2: 'static,
    Out: 'static,
 {
    exists|a1: Arg1, a2: Arg2, o: Out|
        {
            &&& holds(args[0], a1)
            &&& holds(args[1], a2)
            &&& #[trigger] call_ensures(f, (&a1, &a2), o)
            &&& wraps(out, o)
        }
}

/// `out` is what wrapping gives for a result that `f` may give for values that
/// `args[0]`, `args[1]` and `args[2]` hold, in this order.
pub open spec fn answers_3<F, Arg1, Arg2, Arg3, Out>(
    f: F,
    args: Seq<TypeErasedValue>,
    out: TypeErasedValue,
) -> bool where
    F: Fn(&Arg1, &Arg2, &Arg3) -> Out,
    Arg1: 'static,
    Arg2: 'static,
    Arg3: 'static,
    Out: 'static,
 {
    exists|a1: Arg1, a2: Arg2, a3: Arg3, o: Out|
        {
            &&& holds(args[0], a1)
            &&& holds(args[1], a2)
            &&& holds(args[2], a3)
            &&& #[trigger] call_ensures(f, (&a1, &a2, &a3), o)
            &&& wraps(out, o)
        }
}

/// `out` is what wrapping gives for a result that `f` may give for values that
/// `args[0]` to `args[3]` hold, in this order.
pub open spec fn answers_4<F, Arg1, Arg2, Arg3, Arg4, Out>(
    f: F,
    args: Seq<TypeErasedValue>,
    out: TypeErasedValue,
) -> bool where
    F: Fn(&Arg1, &Arg2, &Arg3, &Arg4) -> Out,
    Arg1: 'static,
    Arg2: 'static,
    Arg3: 'static,
    Arg4: 'static,
    Out: 'static,
 {
    exists|a1: Arg1, a2: Arg2, a3: Arg3, a4: Arg4, o: Out|
        {
            &&& holds(args[0], a1)
            &&& holds(args[1], a2)
            &&& holds(args[2], a3)
            &&& holds(args[3], a4)
            &&& #[trigger] call_ensures(f, (&a1, &a2, &a3, &a4), o)
            &&& wraps(out, o)
        }
}

} // verus!
