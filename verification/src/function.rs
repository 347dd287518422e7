//! Functions of fixed arity bound behind the uniform interface, one wrapper for each
//! arity from zero to four, and the factories that make them.

use crate::arguments::Arguments;
use crate::callable::answers_0;
use crate::callable::answers_1;
use crate::callable::answers_2;
use crate::callable::answers_3;
use crate::callable::answers_4;
use crate::callable::DynamicCallable;
use crate::callable::DynamicIntrospectable;
use crate::error::InvocationError;
use crate::validation::identity_at;
use crate::validation::mismatched;
use crate::validation::typed_argument;
use crate::value::holds;
use crate::value::identifies;
use crate::value::identity_of;
use crate::value::wraps;
use crate::value::TypeErasedValue;
use std::any::TypeId;
use std::marker::PhantomData;
use vstd::prelude::*;

verus! {

/// A function without parameters, with the identity of its result type.
#[verifier::reject_recursive_types(F)]
#[verifier::reject_recursive_types(Out)]
struct DynamicFunction0<F, Out> where F: Fn() -> Out + 'static, Out: 'static {
    function: F,
    parameters: Vec<TypeId>,
    answer: TypeId,
    marker: PhantomData<Out>,
}

impl<F, Out> DynamicFunction0<F, Out> where F: Fn() -> Out + 'static, Out: 'static {
    #[verifier::type_invariant]
    spec fn well_formed(&self) -> bool {
        &&& self.parameters@.len() == 0
        &&& identifies::<Out>(self.answer)
        &&& call_requires(self.function, ())
    }
}

impl<F, Out> DynamicCallable for DynamicFunction0<F, Out> where
    F: Fn() -> Out + 'static,
    Out: 'static,
 {
    closed spec fn signature(&self) -> Seq<TypeId> {
        self.parameters@
    }

    closed spec fn may_answer(&self, args: Seq<TypeErasedValue>, out: TypeErasedValue) -> bool {
        answers_0(self.function, out)
    }

    fn call(&self, _arguments: &dyn Arguments) -> (r: Result<TypeErasedValue, InvocationError>) {
        proof {
            use_type_invariant(self);
        }
        let result = (self.function)();
        let out = TypeErasedValue::wrap(result);
        assert(call_ensures(self.function, (), result) && wraps(out, result));
        Ok(out)
    }
}

impl<F, Out> DynamicIntrospectable for DynamicFunction0<F, Out> where
    F: Fn() -> Out + 'static,
    Out: 'static,
 {
    closed spec fn parameter_types(&self) -> Seq<TypeId> {
        self.parameters@
    }

    closed spec fn return_type(&self) -> TypeId {
        self.answer
    }

    fn get_argument_type(&self, index: usize) -> (r: Option<TypeId>) {
        identity_at(&self.parameters, index)
    }

    fn get_return_type(&self) -> (r: Option<TypeId>) {
        Some(self.answer)
    }
}

/// Binds a function without parameters.
///
/// `f` must be callable. The callable made of it has no parameters, so it admits every
/// argument list and looks at none of the arguments. It answers with what `f` gives,
/// wrapped, and tells the identity of `Out` as its result type.
pub fn make_dynamic_0<F, Out>(f: F) -> (r: impl DynamicCallable
    + DynamicIntrospectable) where
    F: Fn() -> Out + 'static,
    Out: 'static,

    requires
        call_requires(f, ()),
    ensures
        r.signature() == r.parameter_types(),
        r.parameter_types().len() == 0,
        identifies::<Out>(r.return_type()),
        forall|args: Seq<TypeErasedValue>, out: TypeErasedValue|
            r.may_answer(args, out) <==> answers_0(f, out),
{
    DynamicFunction0 {
        function: f,
        parameters: Vec::new(),
        answer: identity_of::<Out>(),
        marker: PhantomData,
    }
}

/// A function of one parameter, with the identities of its parameter and result types.
#[verifier::reject_recursive_types(F)]
#[verifier::reject_recursive_types(Arg)]
#[verifier::reject_recursive_types(Out)]
struct DynamicFunction1<F, Arg, Out> where
    F: Fn(&Arg) -> Out + 'static,
    Arg: 'static,
    Out: 'static,
 {
    function: F,
    parameters: Vec<TypeId>,
    answer: TypeId,
    marker: PhantomData<(Arg, Out)>,
}

impl<F, Arg, Out> DynamicFunction1<F, Arg, Out> where
    F: Fn(&Arg) -> Out + 'static,
    Arg: 'static,
    Out: 'static,
 {
    #[verifier::type_invariant]
    spec fn well_formed(&self) -> bool {
        &&& self.parameters@.len() == 1
        &&& identifies::<Arg>(self.parameters@[0])
        &&& identifies::<Out>(self.answer)
        &&& forall|a: &Arg| call_requires(self.function, (a,))
    }
}

impl<F, Arg, Out> DynamicCallable for DynamicFunction1<F, Arg, Out> where
    F: Fn(&Arg) -> Out + 'static,
    Arg: 'static,
    Out: 'static,
 {
    closed spec fn signature(&self) -> Seq<TypeId> {
        self.parameters@
    }

    closed spec fn may_answer(&self, args: Seq<TypeErasedValue>, out: TypeErasedValue) -> bool {
        answers_1(self.function, args, out)
    }

    fn call(&self, arguments: &dyn Arguments) -> (r: Result<TypeErasedValue, InvocationError>) {
        proof {
            use_type_invariant(self);
        }
        let arg = match arguments.get_index(0) {
            Some(value) => value,
            None => {
                return Err(InvocationError::MissingArgument(0));
            },
        };

        let typed_arg = match typed_argument::<Arg>(arg, 0, self.parameters[0]) {
            Ok(value) => value,
            Err(e) => {
                assert(mismatched(self.parameters@, arguments.values(), 0));
                return Err(e);
            },
        };

        let result = (self.function)(typed_arg);
        let out = TypeErasedValue::wrap(result);
        assert({
            &&& holds(arguments.values()[0], *typed_arg)
            &&& call_ensures(self.function, (typed_arg,), result)
            &&& wraps(out, result)
        });
        Ok(out)
    }
}

impl<F, Arg, Out> DynamicIntrospectable for DynamicFunction1<F, Arg, Out> where
    F: Fn(&Arg) -> Out + 'static,
    Arg: 'static,
    Out: 'static,
 {
    closed spec fn parameter_types(&self) -> Seq<TypeId> {
        self.parameters@
    }

    closed spec fn return_type(&self) -> TypeId {
        self.answer
    }

    fn get_argument_type(&self, index: usize) -> (r: Option<TypeId>) {
        identity_at(&self.parameters, index)
    }

    fn get_return_type(&self) -> (r: Option<TypeId>) {
        Some(self.answer)
    }
}

/// Binds a function of one parameter.
///
/// `f` must accept every argument of its parameter types. The callable made of it
/// records the identities of these types, in order, and of `Out`: they are what it tells
/// when asked and what it holds its arguments to. A call that it admits answers with
/// what `f` gives for the values that the first argument holds, wrapped.
pub fn make_dynamic_1<F, Arg, Out>(f: F) -> (r: impl DynamicCallable
    + DynamicIntrospectable) where
    F: Fn(&Arg) -> Out + 'static,
    Arg: 'static,
    Out: 'static,

    requires
        forall|a: &Arg| call_requires(f, (a,)),
    ensures
        r.signature() == r.parameter_types(),
        r.parameter_types().len() == 1,
        identifies::<Arg>(r.parameter_types()[0]),
        identifies::<Out>(r.return_type()),
        forall|args: Seq<TypeErasedValue>, out: TypeErasedValue|
            r.may_answer(args, out) <==> answers_1(f, args, out),
{
    DynamicFunction1 {
        function: f,
        parameters: vec![identity_of::<Arg>()],
        answer: identity_of::<Out>(),
        marker: PhantomData,
    }
}

/// A function of two parameters, with the identities of its parameter and result
/// types.
#[verifier::reject_recursive_types(F)]
#[verifier::reject_recursive_types(Arg1)]
#[verifier::reject_recursive_types(Arg2)]
#[verifier::reject_recursive_types(Out)]
struct DynamicFunction2<F, Arg1, Arg2, Out> where
    F: Fn(&Arg1, &Arg2) -> Out + 'static,
    Arg1: 'static,
    Arg2: 'static,
    Out: 'static,
 {
    function: F,
    parameters: Vec<TypeId>,
    answer: TypeId,
    marker: PhantomData<(Arg1, Arg2, Out)>,
}

impl<F, Arg1, Arg2, Out> DynamicFunction2<F, Arg1, Arg2, Out> where
    F: Fn(&Arg1, &Arg2) -> Out + 'static,
    Arg1: 'static,
    Arg2: 'static,
    Out: 'static,
 {
    #[verifier::type_invariant]
    spec fn well_formed(&self) -> bool {
        &&& self.parameters@.len() == 2
        &&& identifies::<Arg1>(self.parameters@[0])
        &&& identifies::<Arg2>(self.parameters@[1])
        &&& identifies::<Out>(self.answer)
        &&& forall|a1: &Arg1, a2: &Arg2| call_requires(self.function, (a1, a2))
    }
}

impl<F, Arg1, Arg2, Out> DynamicCallable for DynamicFunction2<F, Arg1, Arg2, Out> where
    F: Fn(&Arg1, &Arg2) -> Out + 'static,
    Arg1: 'static,
    Arg2: 'static,
    Out: 'static,
 {
    closed spec fn signature(&self) -> Seq<TypeId> {
        self.parameters@
    }

    closed spec fn may_answer(&self, args: Seq<TypeErasedValue>, out: TypeErasedValue) -> bool {
        answers_2(self.function, args, out)
    }

    fn call(&self, arguments: &dyn Arguments) -> (r: Result<TypeErasedValue, InvocationError>) {
        proof {
            use_type_invariant(self);
        }
        let arg1 = match arguments.get_index(0) {
            Some(value) => value,
            None => {
                return Err(InvocationError::MissingArgument(0));
            },
        };
        let arg2 = match arguments.get_index(1) {
            Some(value) => value,
            None => {
                return Err(InvocationError::MissingArgument(1));
            },
        };

        let typed_arg1 = match typed_argument::<Arg1>(arg1, 0, self.parameters[0]) {
            Ok(value) => value,
            Err(e) => {
                assert(mismatched(self.parameters@, arguments.values(), 0));
                return Err(e);
            },
        };
        let typed_arg2 = match typed_argument::<Arg2>(arg2, 1, self.parameters[1]) {
            Ok(value) => value,
            Err(e) => {
                assert(mismatched(self.parameters@, arguments.values(), 1));
                return Err(e);
            },
        };

        let result = (self.function)(typed_arg1, typed_arg2);
        let out = TypeErasedValue::wrap(result);
        assert({
            &&& holds(arguments.values()[0], *typed_arg1)
            &&& holds(arguments.values()[1], *typed_arg2)
            &&& call_ensures(self.function, (typed_arg1, typed_arg2), result)
            &&& wraps(out, result)
        });
        Ok(out)
    }
}

impl<F, Arg1, Arg2, Out> DynamicIntrospectable for DynamicFunction2<F, Arg1, Arg2, Out> where
    F: Fn(&Arg1, &Arg2) -> Out + 'static,
    Arg1: 'static,
    Arg2: 'static,
    Out: 'static,
 {
    closed spec fn parameter_types(&self) -> Seq<TypeId> {
        self.parameters@
    }

    closed spec fn return_type(&self) -> TypeId {
        self.answer
    }

    fn get_argument_type(&self, index: usize) -> (r: Option<TypeId>) {
        identity_at(&self.parameters, index)
    }

    fn get_return_type(&self) -> (r: Option<TypeId>) {
        Some(self.answer)
    }
}

/// Binds a function of two parameters.
///
/// `f` must accept every argument of its parameter types. The callable made of it
/// records the identities of these types, in order, and of `Out`: they are what it tells
/// when asked and what it holds its arguments to. A call that it admits answers with
/// what `f` gives for the values that the first two arguments hold, wrapped.
pub fn make_dynamic_2<F, Arg1, Arg2, Out>(f: F) -> (r: impl DynamicCallable
    + DynamicIntrospectable) where
    F: Fn(&Arg1, &Arg2) -> Out + 'static,
    Arg1: 'static,
    Arg2: 'static,
    Out: 'static,

    requires
        forall|a1: &Arg1, a2: &Arg2| call_requires(f, (a1, a2)),
    ensures
        r.signature() == r.parameter_types(),
        r.parameter_types().len() == 2,
        identifies::<Arg1>(r.parameter_types()[0]),
        identifies::<Arg2>(r.parameter_types()[1]),
        identifies::<Out>(r.return_type()),
        forall|args: Seq<TypeErasedValue>, out: TypeErasedValue|
            r.may_answer(args, out) <==> answers_2(f, args, out),
{
    DynamicFunction2 {
        function: f,
        parameters: vec![identity_of::<Arg1>(), identity_of::<Arg2>()],
        answer: identity_of::<Out>(),
        marker: PhantomData,
    }
}

/// A function of three parameters, with the identities of its parameter and result
/// types.
#[verifier::reject_recursive_types(F)]
#[verifier::reject_recursive_types(Arg1)]
#[verifier::reject_recursive_types(Arg2)]
#[verifier::reject_recursive_types(Arg3)]
#[verifier::reject_recursive_types(Out)]
struct DynamicFunction3<F, Arg1, Arg2, Arg3, Out> where
    F: Fn(&Arg1, &Arg2, &Arg3) -> Out + 'static,
    Arg1: 'static,
    Arg2: 'static,
    Arg3: 'static,
    Out: 'static,
 {
    function: F,
    parameters: Vec<TypeId>,
    answer: TypeId,
    marker: PhantomData<(Arg1, Arg2, Arg3, Out)>,
}

impl<F, Arg1, Arg2, Arg3, Out> DynamicFunction3<F, Arg1, Arg2, Arg3, Out> where
    F: Fn(&Arg1, &Arg2, &Arg3) -> Out + 'static,
    Arg1: 'static,
    Arg2: 'static,
    Arg3: 'static,
    Out: 'static,
 {
    #[verifier::type_invariant]
    spec fn well_formed(&self) -> bool {
        &&& self.parameters@.len() == 3
        &&& identifies::<Arg1>(self.parameters@[0])
        &&& identifies::<Arg2>(self.parameters@[1])
        &&& identifies::<Arg3>(self.parameters@[2])
        &&& identifies::<Out>(self.answer)
        &&& forall|a1: &Arg1, a2: &Arg2, a3: &Arg3| call_requires(self.function, (a1, a2, a3))
    }
}

impl<F, Arg1, Arg2, Arg3, Out> DynamicCallable for DynamicFunction3<F, Arg1, Arg2, Arg3, Out> where
    F: Fn(&Arg1, &Arg2, &Arg3) -> Out + 'static,
    Arg1: 'static,
    Arg2: 'static,
    Arg3: 'static,
    Out: 'static,
 {
    closed spec fn signature(&self) -> Seq<TypeId> {
        self.parameters@
    }

    closed spec fn may_answer(&self, args: Seq<TypeErasedValue>, out: TypeErasedValue) -> bool {
        answers_3(self.function, args, out)
    }

    fn call(&self, arguments: &dyn Arguments) -> (r: Result<TypeErasedValue, InvocationError>) {
        proof {
            use_type_invariant(self);
        }
        let arg1 = match arguments.get_index(0) {
            Some(value) => value,
            None => {
                return Err(InvocationError::MissingArgument(0));
            },
        };
        let arg2 = match arguments.get_index(1) {
            Some(value) => value,
            None => {
                return Err(InvocationError::MissingArgument(1));
            },
        };
        let arg3 = match arguments.get_index(2) {
            Some(value) => value,
            None => {
                return Err(InvocationError::MissingArgument(2));
            },
        };

        let typed_arg1 = match typed_argument::<Arg1>(arg1, 0, self.parameters[0]) {
            Ok(value) => value,
            Err(e) => {
                assert(mismatched(self.parameters@, arguments.values(), 0));
                return Err(e);
            },
        };
        let typed_arg2 = match typed_argument::<Arg2>(arg2, 1, self.parameters[1]) {
            Ok(value) => value,
            Err(e) => {
                assert(mismatched(self.parameters@, arguments.values(), 1));
                return Err(e);
            },
        };
        let typed_arg3 = match typed_argument::<Arg3>(arg3, 2, self.parameters[2]) {
            Ok(value) => value,
            Err(e) => {
                assert(mismatched(self.parameters@, arguments.values(), 2));
                return Err(e);
            },
        };

        let result = (self.function)(typed_arg1, typed_arg2, typed_arg3);
        let out = TypeErasedValue::wrap(result);
        assert({
            &&& holds(arguments.values()[0], *typed_arg1)
            &&& holds(arguments.values()[1], *typed_arg2)
            &&& holds(arguments.values()[2], *typed_arg3)
            &&& call_ensures(self.function, (typed_arg1, typed_arg2, typed_arg3), result)
            &&& wraps(out, result)
        });
        Ok(out)
    }
}

impl<F, Arg1, Arg2, Arg3, Out> DynamicIntrospectable for DynamicFunction3<
    F, Arg1, Arg2, Arg3, Out,
> where
    F: Fn(&Arg1, &Arg2, &Arg3) -> Out + 'static,
    Arg1: 'static,
    Arg2: 'static,
    Arg3: 'static,
    Out: 'static,
 {
    closed spec fn parameter_types(&self) -> Seq<TypeId> {
        self.parameters@
    }

    closed spec fn return_type(&self) -> TypeId {
        self.answer
    }

    fn get_argument_type(&self, index: usize) -> (r: Option<TypeId>) {
        identity_at(&self.parameters, index)
    }

    fn get_return_type(&self) -> (r: Option<TypeId>) {
        Some(self.answer)
    }
}

/// Binds a function of three parameters.
///
/// `f` must accept every argument of its parameter types. The callable made of it
/// records the identities of these types, in order, and of `Out`: they are what it tells
/// when asked and what it holds its arguments to. A call that it admits answers with
/// what `f` gives for the values that the first three arguments hold, wrapped.
pub fn make_dynamic_3<F, Arg1, Arg2, Arg3, Out>(f: F) -> (r: impl DynamicCallable
    + DynamicIntrospectable) where
    F: Fn(&Arg1, &Arg2, &Arg3) -> Out + 'static,
    Arg1: 'static,
    Arg2: 'static,
    Arg3: 'static,
    Out: 'static,

    requires
        forall|a1: &Arg1, a2: &Arg2, a3: &Arg3| call_requires(f, (a1, a2, a3)),
    ensures
        r.signature() == r.parameter_types(),
        r.parameter_types().len() == 3,
        identifies::<Arg1>(r.parameter_types()[0]),
        identifies::<Arg2>(r.parameter_types()[1]),
        identifies::<Arg3>(r.parameter_types()[2]),
        identifies::<Out>(r.return_type()),
        forall|args: Seq<TypeErasedValue>, out: TypeErasedValue|
            r.may_answer(args, out) <==> answers_3(f, args, out),
{
    DynamicFunction3 {
        function: f,
        parameters: vec![identity_of::<Arg1>(), identity_of::<Arg2>(), identity_of::<Arg3>()],
        answer: identity_of::<Out>(),
        marker: PhantomData,
    }
}

/// A function of four parameters, with the identities of its parameter and result
/// types.
#[verifier::reject_recursive_types(F)]
#[verifier::reject_recursive_types(Arg1)]
#[verifier::reject_recursive_types(Arg2)]
#[verifier::reject_recursive_types(Arg3)]
#[verifier::reject_recursive_types(Arg4)]
#[verifier::reject_recursive_types(Out)]
struct DynamicFunction4<F, Arg1, Arg2, Arg3, Arg4, Out> where
    F: Fn(&Arg1, &Arg2, &Arg3, &Arg4) -> Out + 'static,
    Arg1: 'static,
    Arg2: 'static,
    Arg3: 'static,
    Arg4: 'static,
    Out: 'static,
 {
    function: F,
    parameters: Vec<TypeId>,
    answer: TypeId,
    marker: PhantomData<(Arg1, Arg2, Arg3, Arg4, Out)>,
}

impl<F, Arg1, Arg2, Arg3, Arg4, Out> DynamicFunction4<F, Arg1, Arg2, Arg3, Arg4, Out> where
    F: Fn(&Arg1, &Arg2, &Arg3, &Arg4) -> Out + 'static,
    Arg1: 'static,
    Arg2: 'static,
    Arg3: 'static,
    Arg4: 'static,
    Out: 'static,
 {
    #[verifier::type_invariant]
    spec fn well_formed(&self) -> bool {
        &&& self.parameters@.len() == 4
        &&& identifies::<Arg1>(self.parameters@[0])
        &&& identifies::<Arg2>(self.parameters@[1])
        &&& identifies::<Arg3>(self.parameters@[2])
        &&& identifies::<Arg4>(self.parameters@[3])
        &&& identifies::<Out>(self.answer)
        &&& forall|a1: &Arg1, a2: &Arg2, a3: &Arg3, a4: &Arg4|
            call_requires(self.function, (a1, a2, a3, a4))
    }
}

impl<F, Arg1, Arg2, Arg3, Arg4, Out> DynamicCallable for DynamicFunction4<
    F, Arg1, Arg2, Arg3, Arg4, Out,
> where
    F: Fn(&Arg1, &Arg2, &Arg3, &Arg4) -> Out + 'static,
    Arg1: 'static,
    Arg2: 'static,
    Arg3: 'static,
    Arg4: 'static,
    Out: 'static,
 {
    closed spec fn signature(&self) -> Seq<TypeId> {
        self.parameters@
    }

    closed spec fn may_answer(&self, args: Seq<TypeErasedValue>, out: TypeErasedValue) -> bool {
        answers_4(self.function, args, out)
    }

    fn call(&self, arguments: &dyn Arguments) -> (r: Result<TypeErasedValue, InvocationError>) {
        proof {
            use_type_invariant(self);
        }
        let arg1 = match arguments.get_index(0) {
            Some(value) => value,
            None => {
                return Err(InvocationError::MissingArgument(0));
            },
        };
        let arg2 = match arguments.get_index(1) {
            Some(value) => value,
            None => {
                return Err(InvocationError::MissingArgument(1));
            },
        };
        let arg3 = match arguments.get_index(2) {
            Some(value) => value,
            None => {
                return Err(InvocationError::MissingArgument(2));
            },
        };
        let arg4 = match arguments.get_index(3) {
            Some(value) => value,
            None => {
                return Err(InvocationError::MissingArgument(3));
            },
        };

        let typed_arg1 = match typed_argument::<Arg1>(arg1, 0, self.parameters[0]) {
            Ok(value) => value,
            Err(e) => {
                assert(mismatched(self.parameters@, arguments.values(), 0));
                return Err(e);
            },
        };
        let typed_arg2 = match typed_argument::<Arg2>(arg2, 1, self.parameters[1]) {
            Ok(value) => value,
            Err(e) => {
                assert(mismatched(self.parameters@, arguments.values(), 1));
                return Err(e);
            },
        };
        let typed_arg3 = match typed_argument::<Arg3>(arg3, 2, self.parameters[2]) {
            Ok(value) => value,
            Err(e) => {
                assert(mismatched(self.parameters@, arguments.values(), 2));
                return Err(e);
            },
        };
        let typed_arg4 = match typed_argument::<Arg4>(arg4, 3, self.parameters[3]) {
            Ok(value) => value,
            Err(e) => {
                assert(mismatched(self.parameters@, arguments.values(), 3));
                return Err(e);
            },
        };

        let result = (self.function)(typed_arg1, typed_arg2, typed_arg3, typed_arg4);
        let out = TypeErasedValue::wrap(result);
        assert({
            &&& holds(arguments.values()[0], *typed_arg1)
            &&& holds(arguments.values()[1], *typed_arg2)
            &&& holds(arguments.values()[2], *typed_arg3)
            &&& holds(arguments.values()[3], *typed_arg4)
            &&& call_ensures(
                self.function,
                (typed_arg1, typed_arg2, typed_arg3, typed_arg4),
                result,
            )
            &&& wraps(out, result)
        });
        Ok(out)
    }
}

impl<F, Arg1, Arg2, Arg3, Arg4, Out> DynamicIntrospectable for DynamicFunction4<
    F, Arg1, Arg2, Arg3, Arg4, Out,
> where
    F: Fn(&Arg1, &Arg2, &Arg3, &Arg4) -> Out + 'static,
    Arg1: 'static,
    Arg2: 'static,
    Arg3: 'static,
    Arg4: 'static,
    Out: 'static,
 {
    closed spec fn parameter_types(&self) -> Seq<TypeId> {
        self.parameters@
    }

    closed spec fn return_type(&self) -> TypeId {
        self.answer
    }

    fn get_argument_type(&self, index: usize) -> (r: Option<TypeId>) {
        identity_at(&self.parameters, index)
    }

    fn get_return_type(&self) -> (r: Option<TypeId>) {
        Some(self.answer)
    }
}

/// Binds a function of four parameters.
///
/// `f` must accept every argument of its parameter types. The callable made of it
/// records the identities of these types, in order, and of `Out`: they are what it tells
/// when asked and what it holds its arguments to. A call that it admits answers with
/// what `f` gives for the values that the first four arguments hold, wrapped.
pub fn make_dynamic_4<F, Arg1, Arg2, Arg3, Arg4, Out>(f: F) -> (r: impl DynamicCallable
    + DynamicIntrospectable) where
    F: Fn(&Arg1, &Arg2, &Arg3, &Arg4) -> Out + 'static,
    Arg1: 'static,
    Arg2: 'static,
    Arg3: 'static,
    Arg4: 'static,
    Out: 'static,

    requires
        forall|a1: &Arg1, a2: &Arg2, a3: &Arg3, a4: &Arg4|
            call_requires(f, (a1, a2, a3, a4)),
    ensures
        r.signature() == r.parameter_types(),
        r.parameter_types().len() == 4,
        identifies::<Arg1>(r.parameter_types()[0]),
        identifies::<Arg2>(r.parameter_types()[1]),
        identifies::<Arg3>(r.parameter_types()[2]),
        identifies::<Arg4>(r.parameter_types()[3]),
        identifies::<Out>(r.return_type()),
        forall|args: Seq<TypeErasedValue>, out: TypeErasedValue|
            r.may_answer(args, out) <==> answers_4(f, args, out),
{
    DynamicFunction4 {
        function: f,
        parameters: vec![
            identity_of::<Arg1>(),
            identity_of::<Arg2>(),
            identity_of::<Arg3>(),
            identity_of::<Arg4>(),
        ],
        answer: identity_of::<Out>(),
        marker: PhantomData,
    }
}

} // verus!
