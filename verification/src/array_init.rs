//! The one specification this crate adds to those that `vstd` gives the
//! standard library.

use vstd::prelude::*;

verus! {

/// `core::array::from_fn` builds an array by calling `f` once per index, in
/// increasing order, and storing what each call returns at that index.
///
/// Assumed, not proved: `f` is called on indices below `N` only, and the
/// element at index `i` is a value that `f(i)` returned.
pub assume_specification<T, const N: usize, F>[ core::array::from_fn ](f: F) -> (r: [T; N]) where
    F: FnMut(usize) -> T,

    requires
        forall|i: usize| i < N ==> call_requires(f, (i,)),
    ensures
        forall|i: usize| i < N ==> call_ensures(f, (i,), #[trigger] r@[i as int]),
;

} // verus!
