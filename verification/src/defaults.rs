//! The default value of a type, where the type is known from the context.
use vstd::prelude::*;

verus! {

/// The default value of `T`: whatever `T::default` returns.
pub fn default<T: Default>() -> (value: T)
    ensures
        call_ensures(T::default, (), value),
{
    T::default()
}

} // verus!
