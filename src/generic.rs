use vstd::prelude::*;

verus! {

/// A holder of one value of any type.
pub struct GenericStruct<T> {
    pub field: T,
}

/// Hands back its argument unchanged.
pub fn generic_function<T>(param: T) -> (r: T)
    ensures
        r == param,
{
    param
}

} // verus!
