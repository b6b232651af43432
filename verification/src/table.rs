//! The basic operations on a vector, stated over its view, for element types
//! of any kind.

use vstd::prelude::*;

verus! {

/// The number of elements.
pub fn len_of<T>(v: &Vec<T>) -> (n: usize)
    ensures
        n == v@.len(),
{
    v.len()
}

/// The element at `i`.
pub fn item_at<T>(v: &Vec<T>, i: usize) -> (item: &T)
    requires
        i < v@.len(),
    ensures
        *item == v@[i as int],
{
    &v[i]
}

/// Appends `item`.
pub fn push_item<T>(v: &mut Vec<T>, item: T)
    ensures
        final(v)@ == old(v)@.push(item),
{
    v.push(item);
}

/// Replaces the element at `i` by `item`.
pub fn set_item<T>(v: &mut Vec<T>, i: usize, item: T)
    requires
        i < old(v)@.len(),
    ensures
        final(v)@ == old(v)@.update(i as int, item),
{
    v.set(i, item);
}

} // verus!
