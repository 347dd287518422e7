//! The ways in which an invocation is refused.

use std::any::TypeId;
use vstd::prelude::*;

verus! {

/// Why a callable refused an argument list. The bound function has not run when one of
/// these is returned.
#[derive(Debug, Clone, Copy, PartialEq, Eq)]
pub enum InvocationError {
    /// The argument list has no element at this required index.
    MissingArgument(usize),
    /// The element at this index holds a value of another type than the parameter; the
    /// second field is the identity the parameter expects.
    TypeMismatch(usize, TypeId),
}

} // verus!
