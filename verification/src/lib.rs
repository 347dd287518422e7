//! Calling statically typed functions through a uniform, runtime-typed interface.
//!
//! A [`TypeErasedValue`] holds one value of any `'static` type and remembers which type
//! it is. The factories [`make_dynamic_0`] to [`make_dynamic_4`] bind a function of fixed
//! arity and give back a callable that takes its arguments erased, refuses an argument
//! list that is too short or holds a value of the wrong type, and otherwise answers with
//! the erased result of the bound function.
//!
//! Contracts are stated over three notions: what an erased value holds ([`holds`]),
//! which identity is recorded in it ([`stored_type`]), and how a signature judges an
//! argument list ([`admits`], [`refuses`]). That a container holds one value and no
//! other is stated for the types that are [`plain`], such as the integers.

pub mod arguments;
pub mod callable;
pub mod error;
pub mod function;
pub mod validation;
pub mod value;

pub use crate::arguments::Arguments;
pub use crate::callable::DynamicCallable;
pub use crate::callable::DynamicIntrospectable;
pub use crate::error::InvocationError;
pub use crate::function::make_dynamic_0;
pub use crate::function::make_dynamic_1;
pub use crate::function::make_dynamic_2;
pub use crate::function::make_dynamic_3;
pub use crate::function::make_dynamic_4;
pub use crate::validation::admits;
pub use crate::validation::refuses;
pub use crate::value::holds;
pub use crate::value::identifies;
pub use crate::value::is_a;
pub use crate::value::plain;
pub use crate::value::stored_type;
pub use crate::value::wraps;
pub use crate::value::Erasable;
pub use crate::value::TypeErasedValue;
