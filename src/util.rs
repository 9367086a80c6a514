use vstd::prelude::*;

verus! {

/// Mutable access to the first component of a pair, so that a handler that
/// needs only that part does not see the whole pair.
pub fn tuple_first_mut<A, B>(tuple: &mut (A, B)) -> (first: &mut A)
    ensures
        *first == old(tuple).0,
        *final(tuple) == (*final(first), old(tuple).1),
{
    &mut tuple.0
}

} // verus!
