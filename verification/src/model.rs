//! Models of the containers that hold the library's types.

use vstd::prelude::*;

verus! {

/// The models of the items of a list, in the list's order.
pub open spec fn views<T: View>(items: Seq<T>) -> Seq<T::V> {
    items.map_values(|item: T| item@)
}

/// The model of a value that may be absent.
pub open spec fn option_view<T: View>(value: Option<T>) -> Option<T::V> {
    match value {
        Some(inner) => Some(inner@),
        None => None,
    }
}

} // verus!
