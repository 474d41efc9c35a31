//! Heap allocation helpers shared by the VM state code.
use vstd::prelude::*;

verus! {

/// Box a value on the heap.
pub fn heap_box<T>(val: T) -> (r: Box<T>)
    ensures
        *r == val,
{
    Box::new(val)
}

/// An empty vector with room for `cap` elements (allocation failure is not
/// reported in this build: the result is always `Ok`).
pub fn heap_vec_with_capacity<T>(cap: usize) -> (r: Result<Vec<T>, ()>)
    ensures
        r matches Ok(v) && v@ == Seq::<T>::empty(),
{
    Ok(Vec::with_capacity(cap))
}

/// Append a value to a vector.
pub fn heap_vec_push<T>(v: &mut Vec<T>, val: T)
    ensures
        final(v)@ == old(v)@.push(val),
{
    v.push(val);
}

} // verus!
