//! The vocabulary of the contracts.
//!
//! A table is viewed as a `Seq<T>` of length `N`. Two things the operations
//! depend on are supplied by the caller as executable code: `T::default` and
//! the predicate handed to `find`. Neither need be a function in the
//! mathematical sense, so the contracts speak of the values such code *may*
//! return, through `call_ensures`.

use vstd::prelude::*;

verus! {

/// `v` is a value that `T::default()` may return.
pub open spec fn is_default<T: Default>(v: T) -> bool {
    call_ensures(T::default, (), v)
}

/// Every element of `s` is a value that `T::default()` may return.
pub open spec fn all_default<T: Default>(s: Seq<T>) -> bool {
    forall|i: int| 0 <= i < s.len() ==> is_default(#[trigger] s[i])
}

/// `d` is the only value that `T::default()` returns.
pub open spec fn sole_default<T: Default>(d: T) -> bool {
    forall|v: T| #[trigger] is_default(v) ==> v == d
}

/// `p` may be called on every element of `s`.
pub open spec fn callable_on<T, P: Fn(&T) -> bool>(p: P, s: Seq<T>) -> bool {
    forall|i: int| 0 <= i < s.len() ==> call_requires(p, (&#[trigger] s[i],))
}

/// `p` may answer `true` on `x`.
pub open spec fn accepts<T, P: Fn(&T) -> bool>(p: P, x: T) -> bool {
    call_ensures(p, (&x,), true)
}

/// `p` may answer `false` on `x`.
pub open spec fn rejects<T, P: Fn(&T) -> bool>(p: P, x: T) -> bool {
    call_ensures(p, (&x,), false)
}

/// A scan of `s` from index 0 upward stops at `i`: `p` answered `false` on
/// every element before `i` and `true` on the element at `i`.
pub open spec fn first_accepted<T, P: Fn(&T) -> bool>(s: Seq<T>, p: P, i: int) -> bool {
    &&& 0 <= i < s.len()
    &&& accepts(p, s[i])
    &&& forall|j: int| 0 <= j < i ==> rejects(p, #[trigger] s[j])
}

/// `r` is an outcome of scanning `s` with `p`: the element the scan stopped
/// at, or nothing where `p` answered `false` on every element.
pub open spec fn scan_outcome<T, P: Fn(&T) -> bool>(s: Seq<T>, p: P, r: Option<&T>) -> bool {
    match r {
        Some(e) => exists|i: int| #[trigger] first_accepted(s, p, i) && *e == s[i],
        None => forall|j: int| 0 <= j < s.len() ==> rejects(p, #[trigger] s[j]),
    }
}

/// The executable predicate `p` computes the mathematical predicate `holds`.
pub open spec fn computes<T, P: Fn(&T) -> bool>(p: P, holds: spec_fn(T) -> bool) -> bool {
    forall|x: T, b: bool| #[trigger] call_ensures(p, (&x,), b) ==> b == holds(x)
}

/// `i` is the lowest index of `s` whose element satisfies `holds`.
pub open spec fn lowest_match<T>(s: Seq<T>, holds: spec_fn(T) -> bool, i: int) -> bool {
    &&& 0 <= i < s.len()
    &&& holds(s[i])
    &&& forall|j: int| 0 <= j < i ==> !holds(#[trigger] s[j])
}

} // verus!
