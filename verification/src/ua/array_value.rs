use vstd::prelude::*;

verus! {

/// The three states of an array or string of the protocol: unset, set but
/// without elements, and set with at least one element.
#[derive(Clone, Copy, Debug, PartialEq, Eq)]
pub enum ArrayValue<T> {
    Invalid,
    Empty,
    Valid(T),
}

impl<T> ArrayValue<T> {
    /// Checks for the unset state.
    pub fn is_invalid(&self) -> (invalid: bool)
        ensures
            invalid == (*self is Invalid),
    {
        match self {
            ArrayValue::Invalid => true,
            _ => false,
        }
    }

    /// Checks for the state without elements.
    pub fn is_empty(&self) -> (empty: bool)
        ensures
            empty == (*self is Empty),
    {
        match self {
            ArrayValue::Empty => true,
            _ => false,
        }
    }
}

} // verus!
