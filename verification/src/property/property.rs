//! Traits of property lists: what every list of values attached to mesh items offers, whatever
//! the type of its values.

use vstd::prelude::*;
use crate::io::binary::traits::{store_result, Binary, Endian, UNKNOWN_SIZE};
use crate::io::result::{Error, Result};
use crate::property::handle::{Handle, ItemHandle};
use crate::property::list::PropertyList;
use crate::property::size::{Size, INVALID_INDEX};
use crate::property::storage::{Storage, StorageFor};

verus! {

/// A list of values, one per mesh item of a type, with a name and a persistence flag.
///
/// If the property should be stored along with the default properties, it must be named and
/// marked persistent with `set_persistent()`.
pub trait Property: Sized {
    /// Handle for the item type (vertex, halfedge, edge, face) to which the property belongs.
    type Handle: ItemHandle;

    /// The name of the property.
    spec fn prop_name(&self) -> Seq<char>;

    /// Whether the property is to be persisted.
    spec fn prop_persistent(&self) -> bool;

    /// The number of values.
    spec fn prop_len(&self) -> nat;

    /// Whether the values can be stored.
    spec fn prop_streamable() -> bool;

    /// The size of one value in bytes, or `UNKNOWN_SIZE`.
    spec fn prop_element_size() -> usize;

    /// The size of all values in bytes.
    spec fn prop_size(&self) -> nat;

    /// `new` holds the values of `self`, with the same name and persistence.
    spec fn prop_unchanged(&self, new: &Self) -> bool;

    /// `new` is `self` with the values at `i` and `j` swapped.
    spec fn prop_swapped(&self, new: &Self, i: int, j: int) -> bool;

    /// `new` is `self` with the value at `src` copied to `dst`.
    spec fn prop_copied(&self, new: &Self, src: int, dst: int) -> bool;

    /// The bytes that storing the values writes, and the error if storing fails.
    spec fn prop_stored(&self, endian: Endian) -> (Seq<u8>, Option<Error>);

    /// Restoring `self` from `input` gives `new` and the result `r`.
    spec fn prop_restored(&self, new: &Self, input: Seq<u8>, endian: Endian, r: Result<usize>) -> bool;

    /// Swaps two elements.
    fn swap(&mut self, i0: Self::Handle, i1: Self::Handle)
        requires
            i0.spec_index() < old(self).prop_len(),
            i1.spec_index() < old(self).prop_len(),
        ensures
            old(self).prop_swapped(final(self), i0.spec_index() as int, i1.spec_index() as int),
    ;

    /// Copies one element from `i_src` to `i_dst`.
    fn copy(&mut self, i_src: Self::Handle, i_dst: Self::Handle)
        requires
            i_src.spec_index() < old(self).prop_len(),
            i_dst.spec_index() < old(self).prop_len(),
        ensures
            old(self).prop_copied(final(self), i_src.spec_index() as int, i_dst.spec_index() as int),
    ;

    /// The name of the property.
    fn name(&self) -> (s: &str)
        ensures
            s@ == self.prop_name(),
    ;

    /// Whether this property should be persisted.
    fn persistent(&self) -> (b: bool)
        ensures
            b == self.prop_persistent(),
    ;

    /// Enables or disables persistency; it is enabled only where the values can be stored.
    fn set_persistent(&mut self, enable: bool)
        ensures
            final(self).prop_persistent() == (enable && Self::prop_streamable()),
            final(self).prop_name() == old(self).prop_name(),
            final(self).prop_len() == old(self).prop_len(),
    ;

    /// Number of elements in the property.
    fn len(&self) -> (n: usize)
        ensures
            n == self.prop_len(),
    ;

    /// Whether the property list is empty.
    fn is_empty(&self) -> (b: bool)
        ensures
            b == (self.prop_len() == 0),
    {
        self.len() == 0
    }

    /// Size of one element in bytes, or `UNKNOWN_SIZE` if not known.
    fn element_size(&self) -> (n: usize)
        ensures
            n == Self::prop_element_size(),
    ;

    /// Size of the property in bytes.
    fn size_of(&self) -> (n: usize)
        requires
            self.prop_size() <= usize::MAX,
        ensures
            n == self.prop_size(),
    ;

    /// Size of the property if it had `n_elem` elements, or `UNKNOWN_SIZE` if the size cannot
    /// be estimated.
    fn size_of_len(&self, n_elem: usize) -> (n: usize)
        requires
            Self::prop_element_size() != UNKNOWN_SIZE ==> n_elem * Self::prop_element_size() <= usize::MAX,
        ensures
            Self::prop_element_size() == UNKNOWN_SIZE ==> n == UNKNOWN_SIZE,
            Self::prop_element_size() != UNKNOWN_SIZE ==> n == n_elem * Self::prop_element_size(),
    {
        let size = self.element_size();
        if size != UNKNOWN_SIZE {
            n_elem * size
        } else {
            UNKNOWN_SIZE
        }
    }

    /// Stores the values as one binary block.
    fn store(&self, out: &mut Vec<u8>, endian: Endian) -> (r: Result<usize>)
        ensures
            final(out)@ == old(out)@ + self.prop_stored(endian).0,
            r == store_result(self.prop_stored(endian)),
    ;

    /// Restores the values from a binary block.
    fn restore(&mut self, input: &[u8], endian: Endian) -> (r: Result<usize>)
        ensures
            old(self).prop_restored(final(self), input@, endian, r),
    ;
}

/// The operations that change the number of values, which a property container applies to all
/// its lists alike.
pub trait ResizeableProperty: Property {
    /// `new` is `self` resized to `n` values, new ones default.
    spec fn prop_resized(&self, new: &Self, n: nat) -> bool;

    /// `new` is `self` with one more, default, value at the end.
    spec fn prop_pushed(&self, new: &Self) -> bool;

    /// `new` is `self` with all values removed.
    spec fn prop_cleared(&self, new: &Self) -> bool;

    /// Reserves memory for `n` elements in total.
    /// Only the allocated capacity grows, which depends on the allocator and is not modelled
    /// here; the contract states that everything else stays as it was.
    fn reserve(&mut self, n: Size)
        ensures
            old(self).prop_unchanged(final(self)),
    ;

    /// Resizes the storage to hold `n` elements.
    fn resize(&mut self, n: Size)
        requires
            n < INVALID_INDEX,
        ensures
            old(self).prop_resized(final(self), n as nat),
    ;

    /// Clears all elements and frees memory.
    fn clear(&mut self)
        ensures
            old(self).prop_cleared(final(self)),
    ;

    /// Extends the number of elements by one.
    fn push(&mut self)
        requires
            old(self).prop_len() < usize::MAX,
        ensures
            old(self).prop_pushed(final(self)),
    ;
}

/// Property lists that can be made from a name and a length.
pub trait ConstructableProperty: ResizeableProperty {
    /// `self` is a fresh list named `name` of `len` default values, not persistent.
    spec fn prop_fresh(&self, name: Seq<char>, len: nat) -> bool;

    /// Instantiates a property with the given `name` of length `size`.
    fn new(name: String, size: Size) -> (p: Self)
        requires
            size < INVALID_INDEX,
        ensures
            p.prop_fresh(name@, size as nat),
    ;
}

impl<T: StorageFor, H: ItemHandle> Property for PropertyList<T, H> {
    type Handle = H;

    open spec fn prop_name(&self) -> Seq<char> {
        self.spec_name()
    }

    open spec fn prop_persistent(&self) -> bool {
        self.spec_persistent()
    }

    open spec fn prop_len(&self) -> nat {
        self.contents().len()
    }

    open spec fn prop_streamable() -> bool {
        <T::Storage as Binary>::spec_streamable()
    }

    open spec fn prop_element_size() -> usize {
        <T::Storage as Storage>::spec_element_size()
    }

    open spec fn prop_size(&self) -> nat {
        <T::Storage as Binary>::spec_size_of_value(self.storage_model())
    }

    open spec fn prop_unchanged(&self, new: &Self) -> bool {
        self.unchanged(new)
    }

    open spec fn prop_swapped(&self, new: &Self, i: int, j: int) -> bool {
        self.swapped(new, i, j)
    }

    open spec fn prop_copied(&self, new: &Self, src: int, dst: int) -> bool {
        self.copied(new, src, dst)
    }

    open spec fn prop_stored(&self, endian: Endian) -> (Seq<u8>, Option<Error>) {
        <T::Storage as Binary>::spec_store(self.storage_model(), endian)
    }

    open spec fn prop_restored(&self, new: &Self, input: Seq<u8>, endian: Endian, r: Result<usize>) -> bool {
        &&& (new.storage_model(), r) == <T::Storage as Binary>::spec_restore(self.storage_model(), input, endian)
        &&& new.same_meta(self)
    }

    fn swap(&mut self, i0: H, i1: H) {
        PropertyList::swap(self, i0, i1)
    }

    fn copy(&mut self, i_src: H, i_dst: H) {
        PropertyList::copy(self, i_src, i_dst)
    }

    fn name(&self) -> (s: &str) {
        PropertyList::name(self)
    }

    fn persistent(&self) -> (b: bool) {
        PropertyList::persistent(self)
    }

    fn set_persistent(&mut self, enable: bool) {
        PropertyList::set_persistent(self, enable)
    }

    fn len(&self) -> (n: usize) {
        PropertyList::len(self)
    }

    fn element_size(&self) -> (n: usize) {
        PropertyList::element_size(self)
    }

    fn size_of(&self) -> (n: usize) {
        PropertyList::size_of(self)
    }

    fn store(&self, out: &mut Vec<u8>, endian: Endian) -> (r: Result<usize>) {
        PropertyList::store(self, out, endian)
    }

    fn restore(&mut self, input: &[u8], endian: Endian) -> (r: Result<usize>) {
        PropertyList::restore(self, input, endian)
    }
}

impl<T: StorageFor, H: ItemHandle> ResizeableProperty for PropertyList<T, H> {
    open spec fn prop_resized(&self, new: &Self, n: nat) -> bool {
        self.resized(new, n)
    }

    open spec fn prop_pushed(&self, new: &Self) -> bool {
        self.pushed(new)
    }

    open spec fn prop_cleared(&self, new: &Self) -> bool {
        self.cleared(new)
    }

    fn reserve(&mut self, n: Size) {
        PropertyList::reserve(self, n)
    }

    fn resize(&mut self, n: Size) {
        PropertyList::resize(self, n)
    }

    fn clear(&mut self) {
        PropertyList::clear(self)
    }

    fn push(&mut self) {
        PropertyList::push(self)
    }
}

impl<T: StorageFor, H: ItemHandle> ConstructableProperty for PropertyList<T, H> {
    open spec fn prop_fresh(&self, name: Seq<char>, len: nat) -> bool {
        &&& self.spec_name() == name
        &&& !self.spec_persistent()
        &&& self.contents().len() == len
        &&& forall|k: int| 0 <= k < len ==> T::is_default(#[trigger] self.contents()[k])
    }

    fn new(name: String, size: Size) -> (p: Self) {
        PropertyList::new(name, size)
    }
}

}
