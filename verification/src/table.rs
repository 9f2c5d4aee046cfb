//! The table and its operations.
//!
//! The operations that take an index require it to be below `N`. Verified
//! callers prove that; for callers compiled without verification the array
//! index checks it at run time, and an index of `N` or more panics.

use crate::model::{all_default, callable_on, first_accepted, is_default, rejects, scan_outcome};
use core::slice::Iter;
use vstd::prelude::*;
use vstd::std_specs::iter::IteratorSpec;

verus! {

/// A contiguous memory block of `N` slots.
///
/// Every slot holds a value of `T` from construction on; a slot is addressed
/// by its index in `0..N`, and writing to one slot never moves another.
///
/// The view of a table is the sequence of its slots in index order.
pub struct Table<T, const N: usize> {
    elements: [T; N],
}

impl<T, const N: usize> View for Table<T, N> {
    type V = Seq<T>;

    closed spec fn view(&self) -> Seq<T> {
        self.elements@
    }
}

impl<T, const N: usize> Table<T, N> {
    /// A table has exactly `N` slots, whatever has been done to it.
    pub proof fn lemma_fixed_size(self)
        ensures
            self@.len() == N,
    {
    }
}

impl<T, const N: usize> Table<T, N> where T: Default {
    /// Shared access to the element in slot `i`.
    pub fn get(&self, i: usize) -> (r: &T)
        requires
            i < N,
        ensures
            *r == self@[i as int],
    {
        &self.elements[i]
    }

    /// Exclusive access to the element in slot `i`.
    ///
    /// The reference starts out at the value of slot `i`. What the caller
    /// leaves behind it becomes the value of slot `i`; no other slot changes.
    pub fn get_mut(&mut self, i: usize) -> (r: &mut T)
        requires
            i < N,
        ensures
            *r == old(self)@[i as int],
            final(self)@ == old(self)@.update(i as int, *final(r)),
    {
        &mut self.elements[i]
    }

    /// Replace the element in slot `i` by `e`; no other slot changes. The
    /// value that was there is dropped.
    pub fn set(&mut self, i: usize, e: T)
        requires
            i < N,
        ensures
            final(self)@ == old(self)@.update(i as int, e),
    {
        self.elements[i] = e;
    }

    /// An iterator over shared references to the elements, from slot 0 to
    /// slot `N - 1`.
    ///
    /// The last two clauses are what a verified `for` loop asks of the
    /// iterator it runs over. The type parameter `P` plays no part in the
    /// result.
    pub fn iter<P>(&self) -> (r: Iter<'_, T>)
        ensures
            r.remaining() == self@.as_ref(),
            r.remaining().len() == N,
            r.initial_value_relation(&r),
            r.decrease() is Some,
    {
        self.elements.iter()
    }

    /// Exclusive references to the elements, one per slot, from slot 0 to
    /// slot `N - 1`.
    ///
    /// The reference at position `i` starts out at the value of slot `i`, and
    /// what the caller leaves behind it becomes the value of slot `i`. A
    /// reference that is never written through leaves its slot as it was.
    ///
    /// The references come in a vector, all at once: of each of them the
    /// contract says where it points and where its final value goes, which
    /// it could not say of what a `core::slice::IterMut` yields. The type
    /// parameter `P` plays no part in the result.
    pub fn iter_mut<P>(&mut self) -> (r: Vec<&mut T>)
        ensures
            r@.len() == N,
            forall|i: int| 0 <= i < N ==> *#[trigger] r@[i] == old(self)@[i],
            forall|i: int| 0 <= i < N ==> #[trigger] final(self)@[i] == *final(r@[i]),
            final(self)@.len() == N,
    {
        let ghost after: Seq<T> = final(self)@;
        proof {
            final(self).lemma_fixed_size();
        }
        let mut slots: Vec<&mut T> = Vec::with_capacity(N);
        let mut rest: &mut [T] = &mut self.elements;
        let mut i: usize = 0;
        while i < N
            invariant
                i <= N,
                slots@.len() == i,
                rest@ == old(self)@.subrange(i as int, N as int),
                forall|k: int| 0 <= k < i ==> *#[trigger] slots@[k] == old(self)@[k],
                after.len() == N,
                final(rest)@.len() == N - i,
                forall|k: int| 0 <= k < i ==> #[trigger] after[k] == *final(slots@[k]),
                forall|k: int| i <= k < N ==> #[trigger] after[k] == final(rest)@[k - i],
            decreases N - i,
        {
            let (head, tail) = rest.split_at_mut(1);
            slots.push(&mut head[0]);
            rest = tail;
            i += 1;
        }
        slots
    }

    /// Reset the element in slot `i` to `T::default()`, whatever it held; no
    /// other slot changes. This is how an entry is cleared: the slot stays.
    pub fn zero(&mut self, i: usize)
        requires
            i < N,
        ensures
            is_default(final(self)@[i as int]),
            final(self)@ == old(self)@.update(i as int, final(self)@[i as int]),
    {
        self.elements[i] = T::default()
    }

    /// Scan the slots from 0 upward and return the first element on which
    /// `predicate` answers `true`, or `None` where it answers `false` on all.
    ///
    /// The scan stops at the first match: `predicate` is not called on any
    /// later slot.
    pub fn find<P>(&self, predicate: P) -> (r: Option<&T>) where P: Fn(&T) -> bool
        requires
            callable_on(predicate, self@),
        ensures
            scan_outcome(self@, predicate, r),
    {
        let mut i: usize = 0;
        while i < N
            invariant
                i <= N,
                callable_on(predicate, self@),
                forall|j: int| 0 <= j < i ==> rejects(predicate, #[trigger] self@[j]),
            decreases N - i,
        {
            let e = &self.elements[i];
            assert(*e == self@[i as int]);
            if predicate(e) {
                assert(first_accepted(self@, predicate, i as int));
                return Some(e);
            }
            i += 1;
        }
        None
    }
}

impl<T, const N: usize> Default for Table<T, N> where T: Default {
    /// A table whose every slot holds `T::default()`.
    fn default() -> (r: Self)
        ensures
            r@.len() == N,
            all_default(r@),
    {
        let fill = |_i: usize| -> (v: T)
            ensures
                is_default(v),
            { T::default() };
        Table { elements: core::array::from_fn(fill) }
    }
}

} // verus!
