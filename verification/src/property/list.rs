//! Named property lists: one value per mesh item of a type.

use vstd::prelude::*;
use crate::io::binary::traits::{store_result, Binary, Endian, UNKNOWN_SIZE};
use crate::io::result::{Error, Result};
use crate::property::handle::{Handle, ItemHandle};
use crate::property::size::{Size, INVALID_INDEX};
use crate::property::storage::{Element, Storage, StorageFor};
use crate::util::text::concat;

verus! {

/// The line describing a property list named `name`: two spaces, the name, `, persistent` where
/// it is persistent, and a line break.
pub open spec fn debug_line(name: Seq<char>, persistent: bool) -> Seq<char> {
    seq![' ', ' '] + name + (if persistent {
        seq![',', ' ', 'p', 'e', 'r', 's', 'i', 's', 't', 'e', 'n', 't']
    } else {
        Seq::empty()
    }) + seq!['\n']
}

/// Named property encapsulating the values of some type `T`, one per mesh item.
/// For type safety, it is parametrized by the handle type `H` which differentiates whether this
/// is a vertex, halfedge, edge, face, or mesh property.
pub struct PropertyList<T: StorageFor, H> {
    name: String,
    persistent: bool,
    storage: T::Storage,
    _m: core::marker::PhantomData<H>,
}

impl<T: StorageFor, H> PropertyList<T, H> {
    /// The name of the property.
    pub closed spec fn spec_name(&self) -> Seq<char> {
        self.name@
    }

    /// Whether the property is to be persisted.
    pub closed spec fn spec_persistent(&self) -> bool {
        self.persistent
    }

    /// The views of the values, one per item.
    pub closed spec fn contents(&self) -> Seq<T::V> {
        self.storage.contents()
    }

    /// The model of the values for storing them.
    pub closed spec fn storage_model(&self) -> <T::Storage as Binary>::Model {
        self.storage.model()
    }

    /// `other` has the name and persistence of `self`.
    pub open spec fn same_meta(&self, other: &Self) -> bool {
        self.spec_name() == other.spec_name() && self.spec_persistent() == other.spec_persistent()
    }

    /// `other` is `self` with the values at `i` and `j` swapped.
    pub open spec fn swapped(&self, other: &Self, i: int, j: int) -> bool {
        &&& self.same_meta(other)
        &&& other.contents() == self.contents().update(i, self.contents()[j]).update(j, self.contents()[i])
    }

    /// `other` is `self` with the value at `src` copied to `dst`.
    pub open spec fn copied(&self, other: &Self, src: int, dst: int) -> bool {
        &&& self.same_meta(other)
        &&& other.contents() == self.contents().update(dst, self.contents()[src])
    }

    /// `other` is `self` resized to `n` values, new ones default.
    pub open spec fn resized(&self, other: &Self, n: nat) -> bool {
        &&& self.same_meta(other)
        &&& other.contents().len() == n
        &&& forall|k: int| 0 <= k < n && k < self.contents().len()
            ==> #[trigger] other.contents()[k] == self.contents()[k]
        &&& forall|k: int| self.contents().len() <= k < n ==> T::is_default(#[trigger] other.contents()[k])
    }

    /// `other` is `self` with one more, default, value at the end.
    pub open spec fn pushed(&self, other: &Self) -> bool {
        &&& self.same_meta(other)
        &&& other.contents().len() == self.contents().len() + 1
        &&& other.contents().drop_last() == self.contents()
        &&& T::is_default(other.contents().last())
    }

    /// `other` is `self` with all values removed.
    pub open spec fn cleared(&self, other: &Self) -> bool {
        &&& self.same_meta(other)
        &&& other.contents().len() == 0
    }

    /// `other` has the values of `self`.
    pub open spec fn unchanged(&self, other: &Self) -> bool {
        &&& self.same_meta(other)
        &&& other.contents() == self.contents()
    }

    /// Swapping the values at `i` and `j` twice leaves the values as they were.
    pub proof fn lemma_swap_twice(&self, b: &Self, c: &Self, i: int, j: int)
        requires
            0 <= i < self.contents().len(),
            0 <= j < self.contents().len(),
            self.swapped(b, i, j),
            b.swapped(c, i, j),
        ensures
            self.unchanged(c),
    {
        assert(c.contents() =~= self.contents());
    }
}

impl<T: StorageFor, H: ItemHandle> PropertyList<T, H> {
    /// Instantiates a property with the given `name` holding `size` default values.
    pub fn new(name: String, size: Size) -> (p: Self)
        requires
            size < INVALID_INDEX,
        ensures
            p.spec_name() == name@,
            !p.spec_persistent(),
            p.contents().len() == size,
            forall|k: int| 0 <= k < size ==> T::is_default(#[trigger] p.contents()[k]),
    {
        let mut prop = PropertyList {
            name,
            persistent: false,
            storage: <T::Storage as Storage>::new(),
            _m: core::marker::PhantomData,
        };
        prop.resize(size);
        prop
    }

    /// The name of the property.
    pub fn name(&self) -> (s: &str)
        ensures
            s@ == self.spec_name(),
    {
        self.name.as_str()
    }

    /// Whether this property should be persisted.
    pub fn persistent(&self) -> (b: bool)
        ensures
            b == self.spec_persistent(),
    {
        self.persistent
    }

    /// One line describing the property list: its name, and whether it is persistent.
    pub fn debug_string(&self) -> (s: String)
        ensures
            s@ == debug_line(self.spec_name(), self.spec_persistent()),
    {
        let indent = "  ";
        let marker = ", persistent";
        let nl = "\n";
        proof {
            reveal_strlit("  ");
            reveal_strlit(", persistent");
            reveal_strlit("\n");
        }
        let named = concat(indent, self.name.as_str());
        let line = if self.persistent {
            concat(named.as_str(), marker)
        } else {
            named
        };
        concat(line.as_str(), nl)
    }

    /// Enables or disables persistency. Persistency is enabled only for streamable values.
    pub fn set_persistent(&mut self, persistent: bool)
        ensures
            final(self).spec_persistent() == (persistent && <T::Storage as Binary>::spec_streamable()),
            final(self).spec_name() == old(self).spec_name(),
            final(self).contents() == old(self).contents(),
    {
        self.persistent = <T::Storage as Binary>::is_streamable() && persistent;
    }

    /// Number of elements in the property.
    pub fn len(&self) -> (n: usize)
        ensures
            n == self.contents().len(),
    {
        self.storage.len()
    }

    /// Whether the property list is empty.
    pub fn is_empty(&self) -> (b: bool)
        ensures
            b == (self.contents().len() == 0),
    {
        self.storage.len() == 0
    }

    /// Size of one element in bytes, or `UNKNOWN_SIZE` if not known.
    pub fn element_size(&self) -> (n: usize)
        ensures
            n == <T::Storage as Storage>::spec_element_size(),
    {
        <T::Storage as Storage>::element_size()
    }

    /// Size of the property in bytes.
    pub fn size_of(&self) -> (n: usize)
        requires
            <T::Storage as Binary>::spec_size_of_value(self.storage_model()) <= usize::MAX,
        ensures
            n == <T::Storage as Binary>::spec_size_of_value(self.storage_model()),
    {
        self.storage.size_of_value()
    }

    /// Size of the property if it had `n_elem` elements, or `UNKNOWN_SIZE` if that cannot be
    /// estimated.
    pub fn size_of_len(&self, n_elem: usize) -> (n: usize)
        requires
            <T::Storage as Storage>::spec_element_size() != UNKNOWN_SIZE
                ==> n_elem * <T::Storage as Storage>::spec_element_size() <= usize::MAX,
        ensures
            <T::Storage as Storage>::spec_element_size() == UNKNOWN_SIZE ==> n == UNKNOWN_SIZE,
            <T::Storage as Storage>::spec_element_size() != UNKNOWN_SIZE
                ==> n == n_elem * <T::Storage as Storage>::spec_element_size(),
    {
        let size = self.element_size();
        if size != UNKNOWN_SIZE {
            n_elem * size
        } else {
            UNKNOWN_SIZE
        }
    }

    /// Stores the values as one binary block.
    pub fn store(&self, out: &mut Vec<u8>, endian: Endian) -> (r: Result<usize>)
        ensures
            final(out)@ == old(out)@ + <T::Storage as Binary>::spec_store(self.storage_model(), endian).0,
            r == store_result(<T::Storage as Binary>::spec_store(self.storage_model(), endian)),
    {
        self.storage.store(out, endian)
    }

    /// Restores the values from a binary block; as many values are read as the property holds.
    pub fn restore(&mut self, input: &[u8], endian: Endian) -> (r: Result<usize>)
        ensures
            (final(self).storage_model(), r)
                == <T::Storage as Binary>::spec_restore(old(self).storage_model(), input@, endian),
            final(self).same_meta(old(self)),
    {
        self.storage.restore(input, endian)
    }

    /// The value for item `h`.
    pub fn index(&self, h: H) -> (v: &T)
        requires
            h.spec_index() < self.contents().len(),
        ensures
            v@ == self.contents()[h.spec_index() as int],
    {
        self.storage.get(h.index_us())
    }

    /// Sets the value for item `h`.
    pub fn index_set(&mut self, h: H, value: T)
        requires
            h.spec_index() < old(self).contents().len(),
        ensures
            final(self).same_meta(old(self)),
            final(self).contents() == old(self).contents().update(h.spec_index() as int, value@),
    {
        self.storage.set(h.index_us(), value);
    }

    /// Swaps two elements.
    pub fn swap(&mut self, i0: H, i1: H)
        requires
            i0.spec_index() < old(self).contents().len(),
            i1.spec_index() < old(self).contents().len(),
        ensures
            old(self).swapped(final(self), i0.spec_index() as int, i1.spec_index() as int),
    {
        self.storage.swap(i0.index_us(), i1.index_us());
    }

    /// Copies the element for item `i_src` to item `i_dst`.
    pub fn copy(&mut self, i_src: H, i_dst: H)
        requires
            i_src.spec_index() < old(self).contents().len(),
            i_dst.spec_index() < old(self).contents().len(),
        ensures
            old(self).copied(final(self), i_src.spec_index() as int, i_dst.spec_index() as int),
    {
        let value = self.storage.get(i_src.index_us()).clone_value();
        self.storage.set(i_dst.index_us(), value);
    }

    /// Reserves memory for `n` elements in total.
    /// Only the allocated capacity grows, which depends on the allocator and is not modelled
    /// here; the contract states that everything else stays as it was.
    pub fn reserve(&mut self, n: Size)
        ensures
            old(self).unchanged(final(self)),
    {
        let n = n as usize;
        let len = self.storage.len();
        if n > len {
            self.storage.reserve_more(n - len);
        }
    }

    /// Resizes to hold `n` elements.
    pub fn resize(&mut self, n: Size)
        requires
            n < INVALID_INDEX,
        ensures
            old(self).resized(final(self), n as nat),
    {
        self.storage.resize(n as usize);
    }

    /// Clears all elements and frees memory.
    pub fn clear(&mut self)
        ensures
            old(self).cleared(final(self)),
    {
        self.storage = <T::Storage as Storage>::new();
    }

    /// Extends the number of elements by one default value.
    pub fn push(&mut self)
        requires
            old(self).contents().len() < usize::MAX,
        ensures
            old(self).pushed(final(self)),
    {
        self.storage.push();
    }
}


impl<T: StorageFor, H> Clone for PropertyList<T, H> {
    fn clone(&self) -> (r: Self)
        ensures
            self.unchanged(&r),
    {
        PropertyList {
            name: self.name.clone(),
            persistent: self.persistent,
            storage: self.storage.duplicate(),
            _m: core::marker::PhantomData,
        }
    }
}

}
