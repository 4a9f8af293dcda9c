//! Handles for mesh items and for property lists.

use vstd::prelude::*;
use crate::property::size::{Index, INVALID_INDEX};

verus! {

/// Trait for handle types that wrap an index. A new handle holds the invalid index.
pub trait Handle: Sized + Copy {
    /// The index held by the handle.
    spec fn spec_index(&self) -> Index;

    /// Initialize a handle with an invalid index.
    fn new() -> (h: Self)
        ensures
            h.spec_index() == INVALID_INDEX,
    ;

    /// Construct from an index, which must not be the invalid index.
    fn from_index(idx: Index) -> (h: Self)
        requires
            idx != INVALID_INDEX,
        ensures
            h.spec_index() == idx,
    ;

    /// Gets the index.
    fn index(self) -> (i: Index)
        ensures
            i == self.spec_index(),
    ;

    /// Sets the index.
    fn set_index(&mut self, idx: Index)
        ensures
            final(self).spec_index() == idx,
    ;

    /// Gets the index as a usize for indexing into standard containers.
    fn index_us(self) -> (i: usize)
        ensures
            i == self.spec_index(),
    {
        self.index() as usize
    }

    /// Whether the handle is valid.
    fn is_valid(self) -> (b: bool)
        ensures
            b == (self.spec_index() != INVALID_INDEX),
    {
        self.index() != INVALID_INDEX
    }

    /// Invalidates the underlying index.
    fn invalidate(&mut self)
        ensures
            final(self).spec_index() == INVALID_INDEX,
    {
        self.set_index(INVALID_INDEX);
    }

    /// Increments the handle's underlying index. Iterators use it only where no wrapping can
    /// occur.
    fn __increment(&mut self)
        requires
            old(self).spec_index() < INVALID_INDEX,
        ensures
            final(self).spec_index() == old(self).spec_index() + 1,
    {
        let index = self.index() + 1;
        self.set_index(index);
    }

    /// Decrements the handle's underlying index, rolling over from 0 to `INVALID_INDEX`.
    fn __decrement(&mut self)
        ensures
            old(self).spec_index() > 0 ==> final(self).spec_index() == old(self).spec_index() - 1,
            old(self).spec_index() == 0 ==> final(self).spec_index() == INVALID_INDEX,
    {
        let i = self.index();
        let index = if i == 0 { INVALID_INDEX } else { i - 1 };
        self.set_index(index);
    }

    /// Converts the handle to `Some(self)` if valid, else `None`.
    fn to_option(self) -> (r: Option<Self>)
        ensures
            self.spec_index() != INVALID_INDEX ==> r == Some(self),
            self.spec_index() == INVALID_INDEX ==> r is None,
    {
        if self.is_valid() {
            Some(self)
        } else {
            None
        }
    }
}

/// Marker trait for handles to mesh items (vertex, halfedge, edge, face, mesh).
pub trait ItemHandle: Handle {
}

/// Handle to a property list of values of type `T` for the item type of handle `H`.
pub struct PropHandle<H, T> {
    idx: Index,
    _m: core::marker::PhantomData<(H, T)>,
}

impl<H, T> Clone for PropHandle<H, T> {
    fn clone(&self) -> (r: Self)
        ensures
            r == *self,
    {
        PropHandle { idx: self.idx, _m: core::marker::PhantomData }
    }
}

impl<H, T> Copy for PropHandle<H, T> {
}

impl<H, T> PartialEq for PropHandle<H, T> {
    fn eq(&self, other: &Self) -> (r: bool) {
        self.idx == other.idx
    }
}

impl<H, T> vstd::std_specs::cmp::PartialEqSpecImpl for PropHandle<H, T> {
    open spec fn obeys_eq_spec() -> bool {
        true
    }

    open spec fn eq_spec(&self, other: &Self) -> bool {
        self.spec_index() == other.spec_index()
    }
}

impl<H, T> Eq for PropHandle<H, T> {
}

impl<H, T> PropHandle<H, T> {
    /// Two property handles with the same index are the same handle.
    pub proof fn lemma_index_ext(self, other: Self)
        requires
            self.spec_index() == other.spec_index(),
        ensures
            self == other,
    {
    }
}

impl<H, T> Handle for PropHandle<H, T> {
    closed spec fn spec_index(&self) -> Index {
        self.idx
    }

    fn new() -> (h: Self) {
        PropHandle { idx: INVALID_INDEX, _m: core::marker::PhantomData }
    }

    fn from_index(idx: Index) -> (h: Self) {
        PropHandle { idx, _m: core::marker::PhantomData }
    }

    fn index(self) -> (i: Index) {
        self.idx
    }

    fn set_index(&mut self, idx: Index) {
        self.idx = idx;
    }
}

impl<H, T> Default for PropHandle<H, T> {
    fn default() -> (h: Self)
        ensures
            h.spec_index() == INVALID_INDEX,
    {
        PropHandle { idx: INVALID_INDEX, _m: core::marker::PhantomData }
    }
}

}
