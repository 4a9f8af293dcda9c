//! A parallel collection of property lists for one mesh item type.

use vstd::prelude::*;
use crate::property::handle::{Handle, ItemHandle, PropHandle};
use crate::property::list::PropertyList;
use crate::property::size::{Index, Size, INVALID_INDEX};
use crate::property::value::{AnyProperty, Value};
use crate::util::text::{concat, str_eq};

verus! {

/// A slot of a property container: a property list, or `None` once removed.
pub type Slot<H> = Option<AnyProperty<H>>;

/// `pos` is the position where a new property goes: the first free slot, else the end.
pub open spec fn is_first_free<H>(slots: Seq<Slot<H>>, pos: int) -> bool {
    &&& 0 <= pos <= slots.len()
    &&& forall|j: int| 0 <= j < pos ==> #[trigger] slots[j] is Some
    &&& pos < slots.len() ==> slots[pos] is None
}

/// Slot `s` holds a property named `name`.
pub open spec fn named<H>(s: Slot<H>, name: Seq<char>) -> bool {
    s matches Some(p) && p.spec_name() == name
}

/// `pos` is the position of the first slot holding a property named `name`, or the end.
pub open spec fn is_first_named<H>(slots: Seq<Slot<H>>, name: Seq<char>, pos: int) -> bool {
    &&& 0 <= pos <= slots.len()
    &&& forall|j: int| 0 <= j < pos ==> !named(#[trigger] slots[j], name)
    &&& pos < slots.len() ==> named(slots[pos], name)
}

proof fn lemma_first_named_unique<H>(slots: Seq<Slot<H>>, name: Seq<char>, pos: int)
    requires
        is_first_named(slots, name, pos),
    ensures
        forall|q: int| #[trigger] is_first_named(slots, name, q) ==> q == pos,
{
    assert forall|q: int| #[trigger] is_first_named(slots, name, q) implies q == pos by {
        if q < pos {
            assert(!named(slots[q], name));
        } else if q > pos {
            assert(!named(slots[pos], name));
        }
    }
}

/// The name a property gets when none is given.
pub open spec fn unknown_name() -> Seq<char> {
    seq!['<', 'u', 'n', 'k', 'n', 'o', 'w', 'n', '>']
}

/// `l` is a freshly added property list named `name` with `len` default values.
pub open spec fn is_fresh<T: Value<H>, H>(l: PropertyList<T, H>, name: Seq<char>, len: nat) -> bool {
    &&& l.spec_name() == name
    &&& !l.spec_persistent()
    &&& l.contents().len() == len
    &&& forall|k: int| 0 <= k < len ==> T::is_default(#[trigger] l.contents()[k])
}

/// Slot `b` is slot `a` with its property list (if any) swapped.
pub open spec fn slot_swapped<H>(a: Slot<H>, b: Slot<H>, i: int, j: int) -> bool {
    match (a, b) {
        (None, None) => true,
        (Some(x), Some(y)) => x.rel_swapped(&y, i, j),
        _ => false,
    }
}

/// Slot `b` is slot `a` with its property list (if any) copied.
pub open spec fn slot_copied<H>(a: Slot<H>, b: Slot<H>, src: int, dst: int) -> bool {
    match (a, b) {
        (None, None) => true,
        (Some(x), Some(y)) => x.rel_copied(&y, src, dst),
        _ => false,
    }
}

/// Slot `b` is slot `a` with its property list (if any) resized.
pub open spec fn slot_resized<H>(a: Slot<H>, b: Slot<H>, n: nat) -> bool {
    match (a, b) {
        (None, None) => true,
        (Some(x), Some(y)) => x.rel_resized(&y, n),
        _ => false,
    }
}

/// Slot `b` is slot `a` with its property list (if any) pushed.
pub open spec fn slot_pushed<H>(a: Slot<H>, b: Slot<H>) -> bool {
    match (a, b) {
        (None, None) => true,
        (Some(x), Some(y)) => x.rel_pushed(&y),
        _ => false,
    }
}

/// Slot `b` is slot `a` with its property list (if any) cleared.
pub open spec fn slot_cleared<H>(a: Slot<H>, b: Slot<H>) -> bool {
    match (a, b) {
        (None, None) => true,
        (Some(x), Some(y)) => x.rel_cleared(&y),
        _ => false,
    }
}

/// Slot `b` is slot `a` with its property list (if any) unchanged.
pub open spec fn slot_unchanged<H>(a: Slot<H>, b: Slot<H>) -> bool {
    match (a, b) {
        (None, None) => true,
        (Some(x), Some(y)) => x.rel_unchanged(&y),
        _ => false,
    }
}

/// The text describing slot `s`: the line of its property list, or `[deleted]` and a line
/// break; then one more line break.
pub open spec fn slot_debug<H>(s: Slot<H>) -> Seq<char> {
    let text = match s {
        Some(p) => p.spec_debug(),
        None => seq!['[', 'd', 'e', 'l', 'e', 't', 'e', 'd', ']'],
    };
    text + seq!['\n']
}

/// The text describing the slots `slots`, one after the other.
pub open spec fn slots_debug<H>(slots: Seq<Slot<H>>) -> Seq<char>
    decreases slots.len(),
{
    if slots.len() == 0 {
        Seq::empty()
    } else {
        slots_debug(slots.drop_last()) + slot_debug(slots.last())
    }
}

/// Contains a parallel collection of property lists.
pub struct PropertyContainer<H> {
    vec: Vec<Slot<H>>,
}

impl<H> PropertyContainer<H> {
    /// The slots, in order.
    pub closed spec fn slots(&self) -> Seq<Slot<H>> {
        self.vec@
    }

    /// The list of values of type `T` that `h` refers to, if any.
    pub open spec fn lookup<T: Value<H>>(&self, h: PropHandle<H, T>) -> Option<PropertyList<T, H>> {
        let i = h.spec_index() as int;
        if i < self.slots().len() && self.slots()[i] is Some {
            T::spec_as_list(self.slots()[i].unwrap())
        } else {
            None
        }
    }

    /// `new` is `self` with a fresh property list named `name` of `len` default values added at
    /// the slot of `h`: the first free slot, or a new one at the end.
    pub open spec fn is_added<T: Value<H>>(self, new: Self, h: PropHandle<H, T>, name: Seq<char>, len: nat) -> bool {
        &&& is_first_free(self.slots(), h.spec_index() as int)
        &&& new.slots().len() == (if h.spec_index() == self.slots().len() {
            self.slots().len() + 1
        } else {
            self.slots().len() + 0
        })
        &&& forall|j: int| 0 <= j < new.slots().len() && j != h.spec_index()
            ==> #[trigger] new.slots()[j] == self.slots()[j]
        &&& new.lookup(h) matches Some(l) && is_fresh(l, name, len)
    }

    /// `new` is `self` after removing what `h` refers to: its slot is emptied where it holds a
    /// list of values of type `T`, else nothing changes.
    pub open spec fn is_removed<T: Value<H>>(self, new: Self, h: PropHandle<H, T>) -> bool {
        if self.lookup(h) is Some {
            new.slots() == self.slots().update(h.spec_index() as int, None)
        } else {
            new.slots() == self.slots()
        }
    }

    /// Creates an empty container.
    pub fn new() -> (c: Self)
        ensures
            c.slots() == Seq::<Slot<H>>::empty(),
    {
        PropertyContainer { vec: Vec::new() }
    }
}

impl<H> Default for PropertyContainer<H> {
    /// An empty container.
    fn default() -> (c: Self)
        ensures
            c.slots() == Seq::<Slot<H>>::empty(),
    {
        PropertyContainer::new()
    }
}

impl<H: ItemHandle> PropertyContainer<H> {
    /// Text describing each slot in turn: the line of its property list, or `[deleted]`, each
    /// followed by a line break.
    pub fn debug_string(&self) -> (s: String)
        ensures
            s@ == slots_debug(self.slots()),
    {
        let deleted = "[deleted]";
        let nl = "\n";
        proof {
            reveal_strlit("[deleted]");
            reveal_strlit("\n");
        }
        let mut out = String::new();
        let mut i: usize = 0;
        while i < self.vec.len()
            invariant
                i <= self.vec@.len(),
                out@ == slots_debug(self.vec@.take(i as int)),
                deleted@ == seq!['[', 'd', 'e', 'l', 'e', 't', 'e', 'd', ']'],
                nl@ == seq!['\n'],
            decreases self.vec@.len() - i,
        {
            let piece = match &self.vec[i] {
                Some(p) => p.debug_string(),
                None => deleted.to_owned(),
            };
            let ghost before = out@;
            let with_piece = concat(out.as_str(), piece.as_str());
            out = concat(with_piece.as_str(), nl);
            proof {
                let taken = self.vec@.take(i + 1);
                assert(taken.drop_last() =~= self.vec@.take(i as int));
                assert(taken.last() == self.vec@[i as int]);
                assert(piece@ + seq!['\n'] == slot_debug(self.vec@[i as int]));
                assert(out@ =~= before + (piece@ + seq!['\n']));
            }
            i = i + 1;
        }
        assert(self.vec@.take(i as int) =~= self.vec@);
        out
    }

    /// Returns the length of the property holder. The number of stored properties does not
    /// exceed this length.
    pub fn len(&self) -> (n: Size)
        ensures
            n == self.slots().len() as Size,
    {
        self.vec.len() as Size
    }

    /// Whether the container is empty.
    pub fn is_empty(&self) -> (b: bool)
        ensures
            b == (self.slots().len() == 0),
    {
        self.vec.len() == 0
    }

    /// Adds a property whose elements are of type `T`, named `name` (or `<unknown>`), holding
    /// `len` default values. It goes into the first free slot, or at the end.
    pub fn add<T: Value<H>>(&mut self, name: Option<String>, len: Size) -> (h: PropHandle<H, T>)
        requires
            len < INVALID_INDEX,
            forall|pos: int| is_first_free(old(self).slots(), pos) ==> pos < INVALID_INDEX,
        ensures
            old(self).is_added(*final(self), h, match name {
                Some(n) => n@,
                None => unknown_name(),
            }, len as nat),
    {
        let name = match name {
            Some(n) => n,
            None => {
                let s = "<unknown>";
                proof { reveal_strlit("<unknown>"); }
                let n = s.to_owned();
                assert(n@ =~= unknown_name());
                n
            },
        };
        let mut pos: usize = 0;
        while pos < self.vec.len() && self.vec[pos].is_some()
            invariant
                pos <= self.vec@.len(),
                forall|j: int| 0 <= j < pos ==> #[trigger] self.vec@[j] is Some,
            decreases self.vec@.len() - pos,
        {
            pos = pos + 1;
        }
        assert(is_first_free(old(self).slots(), pos as int));
        if pos == self.vec.len() {
            self.vec.push(None);
        }
        let list = PropertyList::<T, H>::new(name, len);
        let p = T::into_any(list);
        self.vec.set(pos, Some(p));
        PropHandle::from_index(pos as Index)
    }

    /// Returns the property `prop_handle` refers to, if any exists and holds values of type `T`.
    pub fn get<T: Value<H>>(&self, prop_handle: PropHandle<H, T>) -> (r: Option<&PropertyList<T, H>>)
        ensures
            match r {
                Some(l) => self.lookup(prop_handle) == Some(*l),
                None => self.lookup(prop_handle) is None,
            },
    {
        let i = prop_handle.index_us();
        if i < self.vec.len() {
            match &self.vec[i] {
                Some(p) => T::as_list(p),
                None => None,
            }
        } else {
            None
        }
    }

    /// Returns the property `prop_handle` refers to for mutation, if any exists and holds values
    /// of type `T`.
    pub fn get_mut<T: Value<H>>(&mut self, prop_handle: PropHandle<H, T>) -> (r: Option<&mut PropertyList<T, H>>)
        ensures
            match r {
                Some(l) => {
                    &&& old(self).lookup(prop_handle) == Some(*l)
                    &&& final(self).lookup(prop_handle) == Some(*final(l))
                    &&& final(self).slots().len() == old(self).slots().len()
                    &&& forall|j: int| 0 <= j < old(self).slots().len() && j != prop_handle.spec_index()
                        ==> #[trigger] final(self).slots()[j] == old(self).slots()[j]
                },
                None => old(self).lookup(prop_handle) is None && final(self).slots() == old(self).slots(),
            },
    {
        let i = prop_handle.index_us();
        if i < self.vec.len() {
            match &mut self.vec[i] {
                Some(p) => T::as_list_mut(p),
                None => None,
            }
        } else {
            None
        }
    }

    /// Removes the property `prop_handle` refers to, if any exists and holds values of type `T`.
    /// Returns true iff something was removed.
    pub fn remove<T: Value<H>>(&mut self, prop_handle: PropHandle<H, T>) -> (r: bool)
        ensures
            r == (old(self).lookup(prop_handle) is Some),
            old(self).is_removed(*final(self), prop_handle),
    {
        let i = prop_handle.index_us();
        if i < self.vec.len() {
            let matches = match &self.vec[i] {
                Some(p) => T::as_list(p).is_some(),
                None => false,
            };
            if matches {
                self.vec.set(i, None);
            }
            matches
        } else {
            false
        }
    }

    /// Removes all properties; the slots stay, empty.
    pub fn clear(&mut self)
        ensures
            final(self).slots().len() == old(self).slots().len(),
            forall|j: int| 0 <= j < final(self).slots().len() ==> #[trigger] final(self).slots()[j] is None,
    {
        let len = self.vec.len();
        let mut i: usize = 0;
        while i < len
            invariant
                i <= len,
                self.vec@.len() == len,
                forall|j: int| 0 <= j < i ==> #[trigger] self.vec@[j] is None,
            decreases len - i,
        {
            self.vec.set(i, None);
            i = i + 1;
        }
    }

    /// Returns the handle of the first property named `name` if it holds values of type `T`.
    /// Otherwise, it returns an invalid handle.
    pub fn handle<T: Value<H>>(&self, name: &str) -> (h: PropHandle<H, T>)
        ensures
            forall|pos: int| #[trigger] is_first_named(self.slots(), name@, pos) ==> {
                if pos < self.slots().len() && pos < INVALID_INDEX && self.slots()[pos].unwrap().kind() == T::kind() {
                    h.spec_index() == pos && self.lookup(h) is Some
                } else {
                    h.spec_index() == INVALID_INDEX
                }
            },
    {
        let len = self.vec.len();
        let mut i: usize = 0;
        while i < len
            invariant
                i <= len,
                len == self.vec@.len(),
                forall|j: int| 0 <= j < i ==> !named(#[trigger] self.vec@[j], name@),
            decreases len - i,
        {
            let found = match &self.vec[i] {
                Some(p) => str_eq(p.name(), name),
                None => false,
            };
            if found {
                proof {
                    assert(is_first_named(self.vec@, name@, i as int));
                    lemma_first_named_unique(self.vec@, name@, i as int);
                    T::lemma_as_list(self.vec@[i as int].unwrap());
                }
                let is_t = match &self.vec[i] {
                    Some(p) => T::as_list(p).is_some(),
                    None => false,
                };
                if is_t && i < INVALID_INDEX as usize {
                    return PropHandle::from_index(i as Index);
                }
                return PropHandle::new();
            }
            i = i + 1;
        }
        proof {
            assert(is_first_named(self.vec@, name@, len as int));
            lemma_first_named_unique(self.vec@, name@, len as int);
        }
        PropHandle::new()
    }

    /// Copies all properties of item `h_src` to item `h_dst`.
    pub fn copy_all(&mut self, h_src: H, h_dst: H)
        requires
            forall|j: int| 0 <= j < old(self).slots().len() ==> (#[trigger] old(self).slots()[j] matches Some(p) ==> h_src.spec_index() < p.spec_len() && h_dst.spec_index() < p.spec_len()),
        ensures
            final(self).slots().len() == old(self).slots().len(),
            forall|j: int| 0 <= j < old(self).slots().len()
                ==> slot_copied(#[trigger] old(self).slots()[j], final(self).slots()[j], h_src.spec_index() as int, h_dst.spec_index() as int),
    {
        let len = self.vec.len();
        let mut i: usize = 0;
        while i < len
            invariant
                i <= len,
                self.vec@.len() == len,
                old(self).vec@.len() == len,
                forall|j: int| 0 <= j < old(self).slots().len() ==> (#[trigger] old(self).slots()[j] matches Some(p) ==> h_src.spec_index() < p.spec_len() && h_dst.spec_index() < p.spec_len()),
                forall|j: int| 0 <= j < i ==> slot_copied(#[trigger] old(self).vec@[j], self.vec@[j], h_src.spec_index() as int, h_dst.spec_index() as int),
                forall|j: int| i <= j < len ==> #[trigger] self.vec@[j] == old(self).vec@[j],
            decreases len - i,
        {
            assert(self.vec@[i as int] == old(self).slots()[i as int]);
            match &mut self.vec[i] {
                Some(p) => p.copy(h_src, h_dst),
                None => {},
            }
            i = i + 1;
        }
    }

    /// Clears the contents of each active property list.
    pub fn clear_all(&mut self)
        ensures
            final(self).slots().len() == old(self).slots().len(),
            forall|j: int| 0 <= j < old(self).slots().len()
                ==> slot_cleared(#[trigger] old(self).slots()[j], final(self).slots()[j]),
    {
        let len = self.vec.len();
        let mut i: usize = 0;
        while i < len
            invariant
                i <= len,
                self.vec@.len() == len,
                old(self).vec@.len() == len,
                forall|j: int| 0 <= j < i ==> slot_cleared(#[trigger] old(self).vec@[j], self.vec@[j]),
                forall|j: int| i <= j < len ==> #[trigger] self.vec@[j] == old(self).vec@[j],
            decreases len - i,
        {
            match &mut self.vec[i] {
                Some(p) => p.clear(),
                None => {},
            }
            i = i + 1;
        }
    }

    /// Reserves space for `n` items in each active property list.
    /// Only the allocated capacity grows, which depends on the allocator and is not modelled
    /// here; the contract states that everything else stays as it was.
    pub fn reserve_all(&mut self, n: Size)
        ensures
            final(self).slots().len() == old(self).slots().len(),
            forall|j: int| 0 <= j < old(self).slots().len()
                ==> slot_unchanged(#[trigger] old(self).slots()[j], final(self).slots()[j]),
    {
        let len = self.vec.len();
        let mut i: usize = 0;
        while i < len
            invariant
                i <= len,
                self.vec@.len() == len,
                old(self).vec@.len() == len,
                forall|j: int| 0 <= j < i ==> slot_unchanged(#[trigger] old(self).vec@[j], self.vec@[j]),
                forall|j: int| i <= j < len ==> #[trigger] self.vec@[j] == old(self).vec@[j],
            decreases len - i,
        {
            match &mut self.vec[i] {
                Some(p) => p.reserve(n),
                None => {},
            }
            i = i + 1;
        }
    }

    /// Resizes each active property list to `n` items.
    pub fn resize_all(&mut self, n: Size)
        requires
            forall|j: int| 0 <= j < old(self).slots().len() && #[trigger] old(self).slots()[j] is Some
                ==> n < INVALID_INDEX,
        ensures
            final(self).slots().len() == old(self).slots().len(),
            forall|j: int| 0 <= j < old(self).slots().len()
                ==> slot_resized(#[trigger] old(self).slots()[j], final(self).slots()[j], n as nat),
    {
        let len = self.vec.len();
        let mut i: usize = 0;
        while i < len
            invariant
                i <= len,
                self.vec@.len() == len,
                old(self).vec@.len() == len,
                old(self).vec@ == old(self).slots(),
                forall|j: int| 0 <= j < old(self).slots().len() && #[trigger] old(self).slots()[j] is Some
                    ==> n < INVALID_INDEX,
                forall|j: int| 0 <= j < i ==> slot_resized(#[trigger] old(self).vec@[j], self.vec@[j], n as nat),
                forall|j: int| i <= j < len ==> #[trigger] self.vec@[j] == old(self).vec@[j],
            decreases len - i,
        {
            match &mut self.vec[i] {
                Some(p) => p.resize(n),
                None => {},
            }
            i = i + 1;
        }
    }

    /// Pushes a default item to the end of each active property list.
    pub fn push_all(&mut self)
        requires
            forall|j: int| 0 <= j < old(self).slots().len() ==> (#[trigger] old(self).slots()[j] matches Some(p) ==> p.spec_len() < usize::MAX),
        ensures
            final(self).slots().len() == old(self).slots().len(),
            forall|j: int| 0 <= j < old(self).slots().len()
                ==> slot_pushed(#[trigger] old(self).slots()[j], final(self).slots()[j]),
    {
        let len = self.vec.len();
        let mut i: usize = 0;
        while i < len
            invariant
                i <= len,
                self.vec@.len() == len,
                old(self).vec@.len() == len,
                forall|j: int| 0 <= j < old(self).slots().len() ==> (#[trigger] old(self).slots()[j] matches Some(p) ==> p.spec_len() < usize::MAX),
                forall|j: int| 0 <= j < i ==> slot_pushed(#[trigger] old(self).vec@[j], self.vec@[j]),
                forall|j: int| i <= j < len ==> #[trigger] self.vec@[j] == old(self).vec@[j],
            decreases len - i,
        {
            assert(self.vec@[i as int] == old(self).slots()[i as int]);
            match &mut self.vec[i] {
                Some(p) => p.push(),
                None => {},
            }
            i = i + 1;
        }
    }

    /// Swaps a pair of items in each active property list.
    pub fn swap_all(&mut self, i0: H, i1: H)
        requires
            forall|j: int| 0 <= j < old(self).slots().len() ==> (#[trigger] old(self).slots()[j] matches Some(p) ==> i0.spec_index() < p.spec_len() && i1.spec_index() < p.spec_len()),
        ensures
            final(self).slots().len() == old(self).slots().len(),
            forall|j: int| 0 <= j < old(self).slots().len()
                ==> slot_swapped(#[trigger] old(self).slots()[j], final(self).slots()[j], i0.spec_index() as int, i1.spec_index() as int),
    {
        let len = self.vec.len();
        let mut i: usize = 0;
        while i < len
            invariant
                i <= len,
                self.vec@.len() == len,
                old(self).vec@.len() == len,
                forall|j: int| 0 <= j < old(self).slots().len() ==> (#[trigger] old(self).slots()[j] matches Some(p) ==> i0.spec_index() < p.spec_len() && i1.spec_index() < p.spec_len()),
                forall|j: int| 0 <= j < i ==> slot_swapped(#[trigger] old(self).vec@[j], self.vec@[j], i0.spec_index() as int, i1.spec_index() as int),
                forall|j: int| i <= j < len ==> #[trigger] self.vec@[j] == old(self).vec@[j],
            decreases len - i,
        {
            assert(self.vec@[i as int] == old(self).slots()[i as int]);
            match &mut self.vec[i] {
                Some(p) => p.swap(i0, i1),
                None => {},
            }
            i = i + 1;
        }
    }
}


/// Removing a property list leaves its handle referring to nothing and every other slot as it
/// was.
pub proof fn lemma_removed_is_gone<H, T: Value<H>>(
    c: PropertyContainer<H>,
    new: PropertyContainer<H>,
    h: PropHandle<H, T>,
)
    requires
        c.is_removed(new, h),
    ensures
        new.lookup(h) is None,
        new.slots().len() == c.slots().len(),
        forall|j: int| 0 <= j < c.slots().len() && j != h.spec_index() ==> #[trigger] new.slots()[j] == c.slots()[j],
{
}

/// Removing a property list just added gives back the slots from before the addition, and at
/// most one more slot at the end, which is empty.
pub proof fn lemma_add_then_remove<H, T: Value<H>>(
    c: PropertyContainer<H>,
    added: PropertyContainer<H>,
    removed: PropertyContainer<H>,
    h: PropHandle<H, T>,
    name: Seq<char>,
    len: nat,
)
    requires
        c.is_added(added, h, name, len),
        added.is_removed(removed, h),
    ensures
        removed.lookup(h) is None,
        removed.slots().subrange(0, c.slots().len() as int) == c.slots(),
        forall|j: int| c.slots().len() <= j < removed.slots().len() ==> #[trigger] removed.slots()[j] is None,
{
    assert(removed.slots().subrange(0, c.slots().len() as int) =~= c.slots());
}


impl<H> Clone for PropertyContainer<H> {
    fn clone(&self) -> (r: Self)
        ensures
            r.slots().len() == self.slots().len(),
            forall|j: int| 0 <= j < self.slots().len()
                ==> slot_unchanged(#[trigger] self.slots()[j], r.slots()[j]),
    {
        let mut vec: Vec<Slot<H>> = Vec::new();
        let mut i: usize = 0;
        while i < self.vec.len()
            invariant
                i <= self.vec@.len(),
                vec@.len() == i,
                forall|j: int| 0 <= j < i ==> slot_unchanged(#[trigger] self.vec@[j], vec@[j]),
            decreases self.vec@.len() - i,
        {
            let slot = match &self.vec[i] {
                Some(p) => Some(p.clone()),
                None => None,
            };
            vec.push(slot);
            i = i + 1;
        }
        PropertyContainer { vec }
    }
}


/// Swapping the same two items twice in every property list of a container leaves each list as
/// it was: `c1` is `c0` after `swap_all(i0, i1)`, and `c2` is `c1` after it.
pub proof fn lemma_swap_all_twice<H>(c0: PropertyContainer<H>, c1: PropertyContainer<H>, c2: PropertyContainer<H>, i: int, j: int)
    requires
        forall|k: int| 0 <= k < c0.slots().len()
            ==> (#[trigger] c0.slots()[k] matches Some(p) ==> 0 <= i < p.spec_len() && 0 <= j < p.spec_len()),
        c1.slots().len() == c0.slots().len(),
        forall|k: int| 0 <= k < c0.slots().len() ==> slot_swapped(#[trigger] c0.slots()[k], c1.slots()[k], i, j),
        c2.slots().len() == c1.slots().len(),
        forall|k: int| 0 <= k < c1.slots().len() ==> slot_swapped(#[trigger] c1.slots()[k], c2.slots()[k], i, j),
    ensures
        c2.slots().len() == c0.slots().len(),
        forall|k: int| 0 <= k < c0.slots().len() ==> slot_unchanged(#[trigger] c0.slots()[k], c2.slots()[k]),
{
    assert forall|k: int| 0 <= k < c0.slots().len() implies slot_unchanged(#[trigger] c0.slots()[k], c2.slots()[k]) by {
        assert(slot_swapped(c0.slots()[k], c1.slots()[k], i, j));
        assert(slot_swapped(c1.slots()[k], c2.slots()[k], i, j));
        if c0.slots()[k] is Some {
            c0.slots()[k].unwrap().lemma_rel_swap_twice(&c1.slots()[k].unwrap(), &c2.slots()[k].unwrap(), i, j);
        }
    }
}


/// Every handle that refers to a property list of a container is below the container's length
/// (`len`): so is the handle that adding a list returns, and there are never more lists than
/// that length.
pub proof fn lemma_handles_below_len<H, T: Value<H>>(
    c0: PropertyContainer<H>,
    c1: PropertyContainer<H>,
    h: PropHandle<H, T>,
    name: Seq<char>,
    len: nat,
)
    ensures
        c0.lookup(h) is Some ==> h.spec_index() < c0.slots().len(),
        c0.is_added(c1, h, name, len) ==> h.spec_index() < c1.slots().len(),
        c0.slots().filter(|s: Slot<H>| s is Some).len() <= c0.slots().len(),
{
    c0.slots().lemma_filter_len(|s: Slot<H>| s is Some);
}

}
