//! Helper structs `Props` and `PropsMut` to add, remove, or access the property lists of one
//! item type (vertices, halfedges, edges, faces, or the mesh itself) within a mesh.

use vstd::prelude::*;
use vstd::string::StrSliceExecFns;
use crate::property::container::{is_first_free, slots_debug, unknown_name, PropertyContainer};
use crate::property::handle::{Handle, ItemHandle, PropHandle};
use crate::property::list::PropertyList;
use crate::property::size::{Size, INVALID_INDEX};
use crate::property::value::Value;

verus! {

/// Longest name, in characters, of a property added through `PropsMut::add`.
pub const MAX_NAME_CHARS: usize = 256;

/// `n` starts with the name prefix of an item type: `v:`, `h:`, `e:`, `f:` or `m:`.
pub open spec fn has_item_prefix(n: Seq<char>) -> bool {
    &&& n.len() >= 2
    &&& n[1] == ':'
    &&& (n[0] == 'v' || n[0] == 'h' || n[0] == 'e' || n[0] == 'f' || n[0] == 'm')
}

/// `n` is enclosed in angle brackets, `<` first and `>` last, with no line break between them
/// (the names matched by `^<.*>$`).
pub open spec fn is_bracketed(n: Seq<char>) -> bool {
    &&& n.len() >= 2
    &&& n[0] == '<'
    &&& n[n.len() - 1] == '>'
    &&& forall|i: int| 1 <= i < n.len() - 1 ==> n[i] != '\n'
}

/// `n` may not name a property added through `PropsMut::add`: it is longer than
/// `MAX_NAME_CHARS` characters, or reserved for internal use.
pub open spec fn is_reserved_name(n: Seq<char>) -> bool {
    ||| n.len() > MAX_NAME_CHARS
    ||| has_item_prefix(n)
    ||| is_bracketed(n)
}

/// Whether `name` may not name a property added through `PropsMut::add`.
pub fn reserved_name(name: &str) -> (b: bool)
    ensures
        b == is_reserved_name(name@),
{
    let n = name.unicode_len();
    if n > MAX_NAME_CHARS {
        return true;
    }
    if n < 2 {
        return false;
    }
    let c0 = name.get_char(0);
    let c1 = name.get_char(1);
    if c1 == ':' && (c0 == 'v' || c0 == 'h' || c0 == 'e' || c0 == 'f' || c0 == 'm') {
        return true;
    }
    assert(!has_item_prefix(name@));
    if c0 != '<' {
        return false;
    }
    let last = name.get_char(n - 1);
    if last != '>' {
        assert(name@[name@.len() - 1] == last);
        return false;
    }
    let mut i: usize = 1;
    while i < n - 1
        invariant
            1 <= i <= n - 1,
            n == name@.len(),
            2 <= n <= MAX_NAME_CHARS,
            !has_item_prefix(name@),
            name@[0] == '<',
            name@[n - 1] == '>',
            forall|j: int| 1 <= j < i ==> name@[j] != '\n',
        decreases n - 1 - i,
    {
        if name.get_char(i) == '\n' {
            assert(name@[i as int] == '\n');
            assert(!is_bracketed(name@));
            return false;
        }
        i = i + 1;
    }
    true
}

/// Provides immutable access to the property lists of an item type.
pub struct Props<'a, H> {
    props: &'a PropertyContainer<H>,
    len: Size,
}

impl<'a, H> Props<'a, H> {
    /// The property container.
    pub closed spec fn spec_props(&self) -> PropertyContainer<H> {
        *self.props
    }

    /// The number of items of the item type.
    pub closed spec fn spec_len(&self) -> Size {
        self.len
    }
}

impl<'a, H: ItemHandle> Props<'a, H> {
    /// Instantiates an item property interface struct.
    pub(crate) fn new(props: &'a PropertyContainer<H>, len: Size) -> (r: Self)
        ensures
            r.spec_props() == *props,
            r.spec_len() == len,
    {
        Props { props, len }
    }

    /// Number of elements of the given type.
    pub fn len(&self) -> (n: Size)
        ensures
            n == self.spec_len(),
    {
        self.len
    }

    /// Returns the handle with the given name if any exists and corresponds to a property of
    /// type `T`. Otherwise, it returns an invalid handle.
    pub fn handle<T: Value<H>>(&self, name: &str) -> (h: PropHandle<H, T>)
        ensures
            forall|pos: int| #[trigger] crate::property::container::is_first_named(self.spec_props().slots(), name@, pos) ==> {
                if pos < self.spec_props().slots().len() && pos < INVALID_INDEX
                    && self.spec_props().slots()[pos].unwrap().kind() == T::kind() {
                    h.spec_index() == pos && self.spec_props().lookup(h) is Some
                } else {
                    h.spec_index() == INVALID_INDEX
                }
            },
    {
        self.props.handle::<T>(name)
    }

    /// Text describing each property list in turn.
    pub fn debug_string(&self) -> (s: String)
        ensures
            s@ == slots_debug(self.spec_props().slots()),
    {
        self.props.debug_string()
    }

    /// Returns the property list, if any, corresponding to `prop_handle`.
    pub fn get<T: Value<H>>(&self, prop_handle: PropHandle<H, T>) -> (r: Option<&'a PropertyList<T, H>>)
        ensures
            match r {
                Some(l) => self.spec_props().lookup(prop_handle) == Some(*l),
                None => self.spec_props().lookup(prop_handle) is None,
            },
    {
        self.props.get::<T>(prop_handle)
    }
}

/// Provides mutable access to the property lists of an item type.
pub struct PropsMut<'a, H> {
    props: &'a mut PropertyContainer<H>,
    len: Size,
}

impl<'a, H> PropsMut<'a, H> {
    /// The property container, as it is now.
    pub closed spec fn spec_props(&self) -> PropertyContainer<H> {
        *self.props
    }

    /// The borrowed property container.
    pub closed spec fn target(&self) -> &'a mut PropertyContainer<H> {
        self.props
    }

    /// The number of items of the item type.
    pub closed spec fn spec_len(&self) -> Size {
        self.len
    }
}


/// Once a property view is no longer used, the property container it borrows holds what the
/// view last held. With this lemma in scope, what is done through the view reads back through
/// the mesh once the view is dropped.
pub broadcast proof fn lemma_props_mut_resolved<'a, H>(v: PropsMut<'a, H>)
    requires
        #[trigger] has_resolved(v),
    ensures
        *final(v.target()) == v.spec_props(),
{
}

/// What is done through a mesh's mutable item and property views reads back through the mesh
/// once the views are dropped.
pub broadcast group group_views_resolved {
    crate::mesh::items::lemma_items_mut_resolved,
    lemma_props_mut_resolved,
}

impl<'a, H: ItemHandle> PropsMut<'a, H> {
    /// Instantiates an item property interface struct.
    pub(crate) fn new(props: &'a mut PropertyContainer<H>, len: Size) -> (r: Self)
        ensures
            r.spec_props() == *old(props),
            *final(r.target()) == *final(props),
            r.spec_len() == len,
    {
        PropsMut { props, len }
    }

    /// Number of elements of the given type.
    pub fn len(&self) -> (n: Size)
        ensures
            n == self.spec_len(),
    {
        self.len
    }

    /// Returns the handle with the given name if any exists and corresponds to a property of
    /// type `T`. Otherwise, it returns an invalid handle.
    pub fn handle<T: Value<H>>(&self, name: &str) -> (h: PropHandle<H, T>)
        ensures
            forall|pos: int| #[trigger] crate::property::container::is_first_named(self.spec_props().slots(), name@, pos) ==> {
                if pos < self.spec_props().slots().len() && pos < INVALID_INDEX
                    && self.spec_props().slots()[pos].unwrap().kind() == T::kind() {
                    h.spec_index() == pos && self.spec_props().lookup(h) is Some
                } else {
                    h.spec_index() == INVALID_INDEX
                }
            },
    {
        self.props.handle::<T>(name)
    }

    /// Text describing each property list in turn.
    pub fn debug_string(&self) -> (s: String)
        ensures
            s@ == slots_debug(self.spec_props().slots()),
    {
        self.props.debug_string()
    }

    /// Adds a property list of values of type `T` for the item type, holding a default value for
    /// each item, and returns its handle. A name of more than `MAX_NAME_CHARS` characters, or one
    /// reserved for internal use (see `is_reserved_name`), adds nothing and gives an invalid
    /// handle.
    pub fn add<T: Value<H>>(&mut self, name: Option<String>) -> (h: PropHandle<H, T>)
        requires
            old(self).spec_len() < INVALID_INDEX,
            forall|pos: int| is_first_free(old(self).spec_props().slots(), pos) ==> pos < INVALID_INDEX,
        ensures
            if name matches Some(n) && is_reserved_name(n@) {
                &&& h.spec_index() == INVALID_INDEX
                &&& final(self).spec_props() == old(self).spec_props()
            } else {
                old(self).spec_props().is_added(final(self).spec_props(), h, match name {
                    Some(n) => n@,
                    None => unknown_name(),
                }, old(self).spec_len() as nat)
            },
            final(self).spec_len() == old(self).spec_len(),
            *final(final(self).target()) == *final(old(self).target()),
    {
        if let Some(n) = &name {
            if reserved_name(n.as_str()) {
                return PropHandle::new();
            }
        }
        assert(old(self).spec_props().slots() == self.props.slots());
        self.props.add::<T>(name, self.len)
    }

    /// Removes the property list that `prop_handle` refers to, if it exists and holds values of
    /// type `T`, and invalidates `prop_handle`.
    pub fn remove<T: Value<H>>(&mut self, prop_handle: &mut PropHandle<H, T>)
        ensures
            old(self).spec_props().is_removed(final(self).spec_props(), *old(prop_handle)),
            final(prop_handle).spec_index() == INVALID_INDEX,
            final(self).spec_len() == old(self).spec_len(),
            *final(final(self).target()) == *final(old(self).target()),
    {
        self.props.remove(*prop_handle);
        prop_handle.invalidate();
    }

    /// Returns the property list, if any, corresponding to `prop_handle`. This consumes `self`.
    pub fn get<T: Value<H>>(self, prop_handle: PropHandle<H, T>) -> (r: Option<&'a PropertyList<T, H>>)
        ensures
            match r {
                Some(l) => self.spec_props().lookup(prop_handle) == Some(*l),
                None => self.spec_props().lookup(prop_handle) is None,
            },
            *final(self.target()) == self.spec_props(),
    {
        let props: &'a PropertyContainer<H> = self.props;
        props.get::<T>(prop_handle)
    }

    /// Returns the property list, if any, corresponding to `prop_handle`, for mutation. This
    /// consumes `self`.
    pub fn get_mut<T: Value<H>>(self, prop_handle: PropHandle<H, T>) -> (r: Option<&'a mut PropertyList<T, H>>)
        ensures
            match r {
                Some(l) => {
                    &&& self.spec_props().lookup(prop_handle) == Some(*l)
                    &&& final(self.target()).lookup(prop_handle) == Some(*final(l))
                    &&& final(self.target()).slots().len() == self.spec_props().slots().len()
                    &&& forall|j: int| 0 <= j < self.spec_props().slots().len() && j != prop_handle.spec_index()
                        ==> #[trigger] final(self.target()).slots()[j] == self.spec_props().slots()[j]
                },
                None => self.spec_props().lookup(prop_handle) is None
                    && final(self.target()).slots() == self.spec_props().slots(),
            },
    {
        self.props.get_mut::<T>(prop_handle)
    }

    /// Copies a single property value from one item to another of the same type. It is a noop
    /// if either item handle is invalid, or if `prop_handle` refers to no list of type `T`.
    pub fn copy<T: Value<H>>(&mut self, prop_handle: PropHandle<H, T>, h_src: H, h_dst: H)
        requires
            h_src.spec_index() != INVALID_INDEX && h_dst.spec_index() != INVALID_INDEX ==> (
                old(self).spec_props().lookup(prop_handle) matches Some(l)
                    ==> h_src.spec_index() < l.contents().len() && h_dst.spec_index() < l.contents().len()),
        ensures
            final(self).spec_len() == old(self).spec_len(),
            *final(final(self).target()) == *final(old(self).target()),
            final(self).spec_props().slots().len() == old(self).spec_props().slots().len(),
            forall|j: int| 0 <= j < old(self).spec_props().slots().len() && j != prop_handle.spec_index()
                ==> #[trigger] final(self).spec_props().slots()[j] == old(self).spec_props().slots()[j],
            if h_src.spec_index() != INVALID_INDEX && h_dst.spec_index() != INVALID_INDEX
                && old(self).spec_props().lookup(prop_handle) is Some {
                final(self).spec_props().lookup(prop_handle) matches Some(l2)
                    && old(self).spec_props().lookup(prop_handle).unwrap().copied(&l2,
                        h_src.spec_index() as int, h_dst.spec_index() as int)
            } else {
                final(self).spec_props().slots() == old(self).spec_props().slots()
            },
    {
        if h_src.is_valid() && h_dst.is_valid() {
            match self.props.get_mut(prop_handle) {
                Some(p) => p.copy(h_src, h_dst),
                None => {},
            }
        }
    }

    /// Copies all property values from one item to another of the same type. It is a noop if
    /// either handle is invalid.
    pub fn copy_all<T: Value<H>>(&mut self, h_src: H, h_dst: H)
        requires
            h_src.spec_index() != INVALID_INDEX && h_dst.spec_index() != INVALID_INDEX ==> (
                forall|j: int| 0 <= j < old(self).spec_props().slots().len() ==> (
                    #[trigger] old(self).spec_props().slots()[j] matches Some(p)
                        ==> h_src.spec_index() < p.spec_len() && h_dst.spec_index() < p.spec_len())),
        ensures
            final(self).spec_len() == old(self).spec_len(),
            *final(final(self).target()) == *final(old(self).target()),
            final(self).spec_props().slots().len() == old(self).spec_props().slots().len(),
            if h_src.spec_index() != INVALID_INDEX && h_dst.spec_index() != INVALID_INDEX {
                forall|j: int| 0 <= j < old(self).spec_props().slots().len()
                    ==> crate::property::container::slot_copied(#[trigger] old(self).spec_props().slots()[j],
                        final(self).spec_props().slots()[j], h_src.spec_index() as int, h_dst.spec_index() as int)
            } else {
                final(self).spec_props().slots() == old(self).spec_props().slots()
            },
    {
        if h_src.is_valid() && h_dst.is_valid() {
            assert(old(self).spec_props().slots() == self.props.slots());
            self.props.copy_all(h_src, h_dst);
        }
    }
}

}
