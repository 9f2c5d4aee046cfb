//! Properties of the operations taken together.
//!
//! Each lemma takes the states of a table before and after an operation, tied
//! together by what that operation ensures, and concludes what a later read
//! of the table returns.

use crate::model::{
    all_default, computes, first_accepted, is_default, lowest_match, scan_outcome, sole_default,
};
use crate::table::Table;
use core::slice::Iter;
use vstd::prelude::*;
use vstd::std_specs::iter::IteratorSpec;

verus! {

/// In a fresh table every slot reads as the default value: where `T::default`
/// returns `d` and nothing else, the table is `N` copies of `d`.
pub proof fn lemma_fresh_table_reads_default<T: Default, const N: usize>(fresh: Table<T, N>, d: T)
    requires
        all_default(fresh@),
        sole_default(d),
    ensures
        fresh@ == Seq::new(N as nat, |i: int| d),
{
    fresh.lemma_fixed_size();
}

/// After `set(i, v)`, slot `i` reads `v` and every other slot reads what it
/// read before.
pub proof fn lemma_set_then_get<T: Default, const N: usize>(
    before: Table<T, N>,
    after: Table<T, N>,
    i: usize,
    v: T,
    j: usize,
)
    requires
        i < N,
        j < N,
        after@ == before@.update(i as int, v),
    ensures
        after@[i as int] == v,
        j != i ==> after@[j as int] == before@[j as int],
{
    before.lemma_fixed_size();
}

/// After `zero(i)`, slot `i` reads a default value whatever it held before,
/// and every other slot reads what it read before. Where `T::default` returns
/// `d` and nothing else, `zero(i)` leaves the table as `set(i, d)` does.
pub proof fn lemma_zero_then_get<T: Default, const N: usize>(
    before: Table<T, N>,
    after: Table<T, N>,
    i: usize,
    j: usize,
    d: T,
)
    requires
        i < N,
        j < N,
        is_default(after@[i as int]),
        after@ == before@.update(i as int, after@[i as int]),
    ensures
        j != i ==> after@[j as int] == before@[j as int],
        sole_default(d) ==> after@[i as int] == d,
        sole_default(d) ==> after@ == before@.update(i as int, d),
{
    before.lemma_fixed_size();
}

/// Where the predicate handed to `find` computes `holds`, `find` returns the
/// element at the lowest index whose element satisfies `holds`, and returns
/// nothing exactly where no element satisfies it.
pub proof fn lemma_find_lowest_match<T: Default, const N: usize, P: Fn(&T) -> bool>(
    table: Table<T, N>,
    p: P,
    holds: spec_fn(T) -> bool,
    r: Option<&T>,
)
    requires
        computes(p, holds),
        scan_outcome(table@, p, r),
    ensures
        r is None <==> (forall|i: int| 0 <= i < N ==> !holds(#[trigger] table@[i])),
        r matches Some(e) ==> exists|i: int| #[trigger] lowest_match(table@, holds, i) && *e == table@[i],
        forall|i: int| #[trigger] lowest_match(table@, holds, i) ==> r == Some(&table@[i]),
{
    table.lemma_fixed_size();
    if let Some(e) = r {
        let k = choose|k: int| #[trigger] first_accepted(table@, p, k) && *e == table@[k];
        assert(lowest_match(table@, holds, k));
    }
}

/// Two iterators taken from a table that was not changed in between yield the
/// same sequence: the `N` slots, in index order.
pub proof fn lemma_iter_twice<'a, T: Default, const N: usize>(
    table: &'a Table<T, N>,
    first: Iter<'a, T>,
    second: Iter<'a, T>,
)
    requires
        first.remaining() == table@.as_ref(),
        second.remaining() == table@.as_ref(),
    ensures
        first.remaining() == second.remaining(),
        first.remaining().len() == N,
        forall|i: int| 0 <= i < N ==> *#[trigger] first.remaining()[i] == table@[i],
{
    table.lemma_fixed_size();
}

} // verus!
