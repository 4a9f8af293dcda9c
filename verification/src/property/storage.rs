//! Storage containers for property lists and the element types they hold.

use vstd::prelude::*;
use crate::io::binary::traits::{Binary, UNKNOWN_SIZE};
use crate::mesh::status::Status;
use crate::util::bitvec::BitVec;

verus! {

/// Values that have a default and can be duplicated.
pub trait Element: View + Sized {
    /// Whether `v` is the view of the default value.
    spec fn is_default(v: Self::V) -> bool;

    /// The default value.
    fn default_value() -> (r: Self)
        ensures
            Self::is_default(r@),
    ;

    /// A copy of `self`.
    fn clone_value(&self) -> (r: Self)
        ensures
            r@ == self@,
    ;
}

impl Element for u8 {
    open spec fn is_default(v: u8) -> bool {
        v == 0
    }

    fn default_value() -> (r: u8) {
        0
    }

    fn clone_value(&self) -> (r: u8) {
        *self
    }
}

impl Element for i8 {
    open spec fn is_default(v: i8) -> bool {
        v == 0
    }

    fn default_value() -> (r: i8) {
        0
    }

    fn clone_value(&self) -> (r: i8) {
        *self
    }
}

impl Element for u16 {
    open spec fn is_default(v: u16) -> bool {
        v == 0
    }

    fn default_value() -> (r: u16) {
        0
    }

    fn clone_value(&self) -> (r: u16) {
        *self
    }
}

impl Element for i16 {
    open spec fn is_default(v: i16) -> bool {
        v == 0
    }

    fn default_value() -> (r: i16) {
        0
    }

    fn clone_value(&self) -> (r: i16) {
        *self
    }
}

impl Element for u32 {
    open spec fn is_default(v: u32) -> bool {
        v == 0
    }

    fn default_value() -> (r: u32) {
        0
    }

    fn clone_value(&self) -> (r: u32) {
        *self
    }
}

impl Element for i32 {
    open spec fn is_default(v: i32) -> bool {
        v == 0
    }

    fn default_value() -> (r: i32) {
        0
    }

    fn clone_value(&self) -> (r: i32) {
        *self
    }
}

impl Element for u64 {
    open spec fn is_default(v: u64) -> bool {
        v == 0
    }

    fn default_value() -> (r: u64) {
        0
    }

    fn clone_value(&self) -> (r: u64) {
        *self
    }
}

impl Element for i64 {
    open spec fn is_default(v: i64) -> bool {
        v == 0
    }

    fn default_value() -> (r: i64) {
        0
    }

    fn clone_value(&self) -> (r: i64) {
        *self
    }
}

impl Element for bool {
    open spec fn is_default(v: bool) -> bool {
        !v
    }

    fn default_value() -> (r: bool) {
        false
    }

    fn clone_value(&self) -> (r: bool) {
        *self
    }
}

impl Element for String {
    open spec fn is_default(v: Seq<char>) -> bool {
        v.len() == 0
    }

    fn default_value() -> (r: String) {
        String::new()
    }

    fn clone_value(&self) -> (r: String) {
        self.clone()
    }
}

impl Element for Status {
    open spec fn is_default(v: Status) -> bool {
        v.spec_bits() == 0
    }

    fn default_value() -> (r: Status) {
        Status::empty()
    }

    fn clone_value(&self) -> (r: Status) {
        *self
    }
}

/// The value that fills new entries of a property list is the type's zero: `0` for every integer
/// type, `false` for bits, the empty string, and the status with no flag set.
pub proof fn lemma_default_values()
    ensures
        forall|v: u8| <u8 as Element>::is_default(v) <==> v == 0,
        forall|v: i8| <i8 as Element>::is_default(v) <==> v == 0,
        forall|v: u16| <u16 as Element>::is_default(v) <==> v == 0,
        forall|v: i16| <i16 as Element>::is_default(v) <==> v == 0,
        forall|v: u32| <u32 as Element>::is_default(v) <==> v == 0,
        forall|v: i32| <i32 as Element>::is_default(v) <==> v == 0,
        forall|v: u64| <u64 as Element>::is_default(v) <==> v == 0,
        forall|v: i64| <i64 as Element>::is_default(v) <==> v == 0,
        forall|v: bool| <bool as Element>::is_default(v) <==> !v,
        forall|v: Seq<char>| <String as Element>::is_default(v) <==> v.len() == 0,
        forall|v: Status| <Status as Element>::is_default(v) <==> v.spec_bits() == 0,
{
}

/// Abstraction over the containers that hold the values of a property list.
pub trait Storage: Binary + Sized {
    /// Type of the items stored.
    type Item: Element;

    /// The views of the stored items, in order.
    spec fn contents(&self) -> Seq<<Self::Item as View>::V>;

    /// The size of one element when storing the container, or `UNKNOWN_SIZE`.
    spec fn spec_element_size() -> usize;

    /// Creates an empty container.
    fn new() -> (s: Self)
        ensures
            s.contents() == Seq::<<Self::Item as View>::V>::empty(),
    ;

    /// Element size w.r.t. storing the full storage.
    fn element_size() -> (n: usize)
        ensures
            n == Self::spec_element_size(),
    ;

    /// Number of elements.
    fn len(&self) -> (n: usize)
        ensures
            n == self.contents().len(),
    ;

    /// Whether the storage is empty.
    fn is_empty(&self) -> (b: bool)
        ensures
            b == (self.contents().len() == 0),
    ;

    /// Gets the element at index `i`.
    fn get(&self, i: usize) -> (v: &Self::Item)
        requires
            i < self.contents().len(),
        ensures
            v@ == self.contents()[i as int],
    ;

    /// Sets the element at index `i`.
    fn set(&mut self, i: usize, value: Self::Item)
        requires
            i < old(self).contents().len(),
        ensures
            final(self).contents() == old(self).contents().update(i as int, value@),
    ;

    /// Swaps the elements at indices `i` and `j`.
    fn swap(&mut self, i: usize, j: usize)
        requires
            i < old(self).contents().len(),
            j < old(self).contents().len(),
        ensures
            final(self).contents() == old(self).contents().update(i as int, old(self).contents()[j as int])
                .update(j as int, old(self).contents()[i as int]),
    ;

    /// Resizes to `n` elements, dropping elements from the end or appending default values.
    fn resize(&mut self, n: usize)
        ensures
            final(self).contents().len() == n,
            forall|k: int| 0 <= k < n && k < old(self).contents().len()
                ==> #[trigger] final(self).contents()[k] == old(self).contents()[k],
            forall|k: int| old(self).contents().len() <= k < n
                ==> Self::Item::is_default(#[trigger] final(self).contents()[k]),
    ;

    /// Reserves room for `n` more elements; the elements are unchanged.
    /// Only the allocated capacity grows, which depends on the allocator and is not modelled
    /// here; the contract states that everything else stays as it was.
    fn reserve_more(&mut self, n: usize)
        ensures
            final(self).contents() == old(self).contents(),
    ;

    /// Appends a default value.
    fn push(&mut self)
        requires
            old(self).contents().len() < usize::MAX,
        ensures
            final(self).contents().len() == old(self).contents().len() + 1,
            final(self).contents().drop_last() == old(self).contents(),
            Self::Item::is_default(final(self).contents().last()),
    ;

    /// A copy of the container, holding copies of the elements.
    fn duplicate(&self) -> (r: Self)
        ensures
            r.contents() == self.contents(),
    ;
}

/// Picks the storage container for values of a type.
pub trait StorageFor: Element {
    /// Storage container type to be used to store values of type `Self`.
    type Storage: Storage<Item = Self>;
}

/// The views of the items of `s`.
pub open spec fn views_of<T: View>(s: Seq<T>) -> Seq<T::V> {
    Seq::new(s.len(), |i: int| s[i]@)
}

impl<T: Element + Binary> Storage for Vec<T> {
    type Item = T;

    open spec fn contents(&self) -> Seq<T::V> {
        views_of(self@)
    }

    open spec fn spec_element_size() -> usize {
        T::spec_size_of_type()
    }

    fn new() -> (s: Self) {
        let v: Vec<T> = Vec::new();
        assert(views_of(v@) =~= Seq::<T::V>::empty());
        v
    }

    fn element_size() -> (n: usize) {
        T::size_of_type()
    }

    fn len(&self) -> (n: usize) {
        Vec::len(self)
    }

    fn is_empty(&self) -> (b: bool) {
        Vec::len(self) == 0
    }

    fn get(&self, i: usize) -> (v: &T) {
        &self[i]
    }

    fn set(&mut self, i: usize, value: T) {
        self[i] = value;
        assert(views_of(self@) =~= views_of(old(self)@).update(i as int, value@));
    }

    fn swap(&mut self, i: usize, j: usize) {
        if i == j {
            assert(views_of(self@) =~= views_of(old(self)@).update(i as int, views_of(old(self)@)[j as int])
                .update(j as int, views_of(old(self)@)[i as int]));
            return;
        }
        let (lo, hi) = if i < j { (i, j) } else { (j, i) };
        let b = self.remove(hi);
        let a = self.remove(lo);
        self.insert(lo, b);
        self.insert(hi, a);
        assert(views_of(self@) =~= views_of(old(self)@).update(i as int, views_of(old(self)@)[j as int])
            .update(j as int, views_of(old(self)@)[i as int]));
    }

    fn resize(&mut self, n: usize) {
        if n <= Vec::len(self) {
            self.truncate(n);
            assert(views_of(self@).len() == n);
        } else {
            while Vec::len(self) < n
                invariant
                    old(self)@.len() <= self@.len() <= n,
                    forall|k: int| 0 <= k < old(self)@.len() ==> #[trigger] self@[k] == old(self)@[k],
                    forall|k: int| old(self)@.len() <= k < self@.len() ==> T::is_default(#[trigger] self@[k]@),
                decreases n - self@.len(),
            {
                self.push(T::default_value());
            }
        }
    }

    fn reserve_more(&mut self, n: usize) {
        self.reserve(n);
    }

    fn push(&mut self) {
        Vec::push(self, T::default_value());
        assert(views_of(self@).drop_last() =~= views_of(old(self)@));
    }

    fn duplicate(&self) -> (r: Self) {
        let mut out: Vec<T> = Vec::new();
        let mut i: usize = 0;
        while i < self.len()
            invariant
                i <= self@.len(),
                out@.len() == i,
                forall|k: int| 0 <= k < i ==> #[trigger] out@[k]@ == self@[k]@,
            decreases self@.len() - i,
        {
            out.push(self[i].clone_value());
            i = i + 1;
        }
        assert(views_of(out@) =~= views_of(self@));
        out
    }
}

impl Storage for BitVec {
    type Item = bool;

    open spec fn contents(&self) -> Seq<bool> {
        self@
    }

    open spec fn spec_element_size() -> usize {
        UNKNOWN_SIZE
    }

    fn new() -> (s: Self) {
        BitVec::new()
    }

    fn element_size() -> (n: usize) {
        UNKNOWN_SIZE
    }

    fn len(&self) -> (n: usize) {
        BitVec::len(self)
    }

    fn is_empty(&self) -> (b: bool) {
        BitVec::is_empty(self)
    }

    fn get(&self, i: usize) -> (v: &bool) {
        if BitVec::get(self, i) { &true } else { &false }
    }

    fn set(&mut self, i: usize, value: bool) {
        BitVec::set(self, i, value);
    }

    fn swap(&mut self, i: usize, j: usize) {
        BitVec::swap(self, i, j);
    }

    fn resize(&mut self, n: usize) {
        BitVec::resize(self, n, false);
    }

    fn reserve_more(&mut self, n: usize) {
        BitVec::reserve(self, n);
    }

    fn push(&mut self) {
        BitVec::push(self, false);
    }

    fn duplicate(&self) -> (r: Self) {
        self.clone()
    }
}

impl StorageFor for u8 {
    type Storage = Vec<u8>;
}

impl StorageFor for i8 {
    type Storage = Vec<i8>;
}

impl StorageFor for u16 {
    type Storage = Vec<u16>;
}

impl StorageFor for i16 {
    type Storage = Vec<i16>;
}

impl StorageFor for u32 {
    type Storage = Vec<u32>;
}

impl StorageFor for i32 {
    type Storage = Vec<i32>;
}

impl StorageFor for u64 {
    type Storage = Vec<u64>;
}

impl StorageFor for i64 {
    type Storage = Vec<i64>;
}

impl StorageFor for bool {
    type Storage = BitVec;
}

impl StorageFor for String {
    type Storage = Vec<String>;
}

impl StorageFor for Status {
    type Storage = Vec<Status>;
}


/// Every type of value that a property list can hold can be stored and restored, so asking a
/// list for persistency always gets it: `set_persistent(true)` makes it persistent.
pub proof fn lemma_values_streamable()
    ensures
        <<u8 as StorageFor>::Storage as Binary>::spec_streamable(),
        <<i8 as StorageFor>::Storage as Binary>::spec_streamable(),
        <<u16 as StorageFor>::Storage as Binary>::spec_streamable(),
        <<i16 as StorageFor>::Storage as Binary>::spec_streamable(),
        <<u32 as StorageFor>::Storage as Binary>::spec_streamable(),
        <<i32 as StorageFor>::Storage as Binary>::spec_streamable(),
        <<u64 as StorageFor>::Storage as Binary>::spec_streamable(),
        <<i64 as StorageFor>::Storage as Binary>::spec_streamable(),
        <<bool as StorageFor>::Storage as Binary>::spec_streamable(),
        <<String as StorageFor>::Storage as Binary>::spec_streamable(),
        <<Status as StorageFor>::Storage as Binary>::spec_streamable(),
        <String as Binary>::spec_streamable(),
{
}

}
