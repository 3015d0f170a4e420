//! Mathematical values of lists.

use vstd::prelude::*;

verus! {

/// The values of the items of a list, in order.
pub open spec fn views<T: View>(items: Seq<T>) -> Seq<T::V> {
    Seq::new(items.len(), |i: int| items[i]@)
}

} // verus!
