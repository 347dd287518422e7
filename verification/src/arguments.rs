//! The list of erased values that is passed to a call.

use crate::value::TypeErasedValue;
use vstd::prelude::*;

verus! {

/// An ordered list of erased values, read by index. It does not know how many values a
/// callable wants: that is for the callable to say.
pub trait Arguments {
    /// The values supplied, in the order of the call site.
    spec fn values(&self) -> Seq<TypeErasedValue>;

    /// The value at `index`, or `None` past the end.
    fn get_index(&self, index: usize) -> (r: Option<&TypeErasedValue>)
        ensures
            index < self.values().len() ==> r == Some(&self.values()[index as int]),
            index >= self.values().len() ==> r is None,
    ;
}

impl Arguments for &[TypeErasedValue] {
    open spec fn values(&self) -> Seq<TypeErasedValue> {
        self@
    }

    fn get_index(&self, index: usize) -> (r: Option<&TypeErasedValue>) {
        if index < self.len() {
            Some(&self[index])
        } else {
            None
        }
    }
}

} // verus!
