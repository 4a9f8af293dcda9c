//! Indexing traits analogous to `std::ops::Index` and `std::ops::IndexMut`: getting and setting
//! a value at an index, with or without a bounds check, for `Vec`, `BitVec` and property lists.
//! The unchecked variants require an index in bounds.

use vstd::prelude::*;
use crate::property::handle::{Handle, ItemHandle};
use crate::property::list::PropertyList;
use crate::property::storage::StorageFor;
use crate::util::bitvec::BitVec;

verus! {

/// A collection whose values can be read and written by an index of type `Idx`.
pub trait IndexView<Idx> {
    /// The type of the values.
    type Output;

    /// `index` is within the bounds of `self`.
    spec fn in_bounds(&self, index: Idx) -> bool;

    /// `value` is the value at `index` in `self`.
    spec fn holds_at(&self, index: Idx, value: Self::Output) -> bool;

    /// `new` is `self` with `value` at `index` and the other values unchanged.
    spec fn is_set(&self, new: &Self, index: Idx, value: Self::Output) -> bool;
}

/// Getting a value at an index without a bounds check.
pub trait IndexUnchecked<Idx>: IndexView<Idx> {
    /// Gets the value at `index`, which must be in bounds.
    fn index_unchecked(&self, index: Idx) -> (r: &Self::Output)
        requires
            self.in_bounds(index),
        ensures
            self.holds_at(index, *r),
    ;
}

/// Setting a value at an index without a bounds check.
pub trait IndexSetUnchecked<Idx>: IndexView<Idx> {
    /// Moves `value` into `index`, which must be in bounds.
    fn index_set_unchecked(&mut self, index: Idx, value: Self::Output)
        requires
            old(self).in_bounds(index),
        ensures
            old(self).is_set(final(self), index, value),
    ;
}

/// Setting a value at an index, as an alternative to `std::ops::IndexMut`.
pub trait IndexSet<Idx>: IndexView<Idx> {
    /// Moves `value` into `index`, which must be in bounds.
    fn index_set(&mut self, index: Idx, value: Self::Output)
        requires
            old(self).in_bounds(index),
        ensures
            old(self).is_set(final(self), index, value),
    ;
}

impl<T> IndexView<usize> for Vec<T> {
    type Output = T;

    open spec fn in_bounds(&self, index: usize) -> bool {
        index < self@.len()
    }

    open spec fn holds_at(&self, index: usize, value: T) -> bool {
        value == self@[index as int]
    }

    open spec fn is_set(&self, new: &Self, index: usize, value: T) -> bool {
        new@ == self@.update(index as int, value)
    }
}

impl<T> IndexUnchecked<usize> for Vec<T> {
    fn index_unchecked(&self, index: usize) -> (r: &T) {
        &self[index]
    }
}

impl<T> IndexSetUnchecked<usize> for Vec<T> {
    fn index_set_unchecked(&mut self, index: usize, value: T) {
        self.set(index, value);
    }
}

impl<T> IndexSet<usize> for Vec<T> {
    fn index_set(&mut self, index: usize, value: T) {
        self.set(index, value);
    }
}

impl IndexView<usize> for BitVec {
    type Output = bool;

    open spec fn in_bounds(&self, index: usize) -> bool {
        index < self@.len()
    }

    open spec fn holds_at(&self, index: usize, value: bool) -> bool {
        value == self@[index as int]
    }

    open spec fn is_set(&self, new: &Self, index: usize, value: bool) -> bool {
        new@ == self@.update(index as int, value)
    }
}

impl IndexUnchecked<usize> for BitVec {
    fn index_unchecked(&self, index: usize) -> (r: &bool) {
        if self.get_unchecked(index) {
            &true
        } else {
            &false
        }
    }
}

impl IndexSetUnchecked<usize> for BitVec {
    fn index_set_unchecked(&mut self, index: usize, value: bool) {
        self.set_unchecked(index, value);
    }
}

impl IndexSet<usize> for BitVec {
    fn index_set(&mut self, index: usize, value: bool) {
        self.set(index, value);
    }
}

impl<T: StorageFor, H: ItemHandle> IndexView<H> for PropertyList<T, H> {
    type Output = T;

    open spec fn in_bounds(&self, index: H) -> bool {
        index.spec_index() < self.contents().len()
    }

    open spec fn holds_at(&self, index: H, value: T) -> bool {
        value@ == self.contents()[index.spec_index() as int]
    }

    open spec fn is_set(&self, new: &Self, index: H, value: T) -> bool {
        &&& new.same_meta(self)
        &&& new.contents() == self.contents().update(index.spec_index() as int, value@)
    }
}

impl<T: StorageFor, H: ItemHandle> IndexUnchecked<H> for PropertyList<T, H> {
    fn index_unchecked(&self, index: H) -> (r: &T) {
        self.index(index)
    }
}

impl<T: StorageFor, H: ItemHandle> IndexSetUnchecked<H> for PropertyList<T, H> {
    fn index_set_unchecked(&mut self, index: H, value: T) {
        PropertyList::index_set(self, index, value)
    }
}

impl<T: StorageFor, H: ItemHandle> IndexSet<H> for PropertyList<T, H> {
    fn index_set(&mut self, index: H, value: T) {
        PropertyList::index_set(self, index, value)
    }
}

}
