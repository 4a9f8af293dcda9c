//! The primitives (`Vertex`, `Halfedge`, `Edge`, `Face`) encoding mesh connectivity, and
//! operations on the collections of these items.

use vstd::prelude::*;
use crate::mesh::item_handle::{
    EdgeHandle, FaceHandle, HalfedgeHandle, MeshItemHandle, StorageItemHandle, VertexHandle,
};
use crate::mesh::prop::{Props, PropsMut};
use crate::property::container::{slot_cleared, slot_pushed, slot_resized, slot_unchanged, PropertyContainer};
use crate::property::handle::Handle;
use crate::property::size::{Size, INVALID_INDEX};

verus! {

/// Vertex fields for halfedge topology.
#[derive(Clone, Copy, Debug, PartialEq, Eq, Structural)]
pub struct Vertex {
    /// An outgoing halfedge, if any, from this vertex.
    pub hh: HalfedgeHandle,
}

/// Halfedge fields for halfedge topology.
#[derive(Clone, Copy, Debug, PartialEq, Eq, Structural)]
pub struct Halfedge {
    /// The face, if any, to which this halfedge belongs.
    pub fh: FaceHandle,
    /// The vertex this halfedge points to.
    pub vh: VertexHandle,
    /// The next halfedge going counter-clockwise around the face.
    pub hnext: HalfedgeHandle,
    /// The previous halfedge, i.e. the next one going clockwise around the face.
    pub hprev: HalfedgeHandle,
}

/// Edge fields for halfedge topology: the pair of halfedges constituting the edge.
#[derive(Clone, Copy, Debug)]
pub struct Edge(pub [Halfedge; 2]);

/// Face fields for halfedge topology.
#[derive(Clone, Copy, Debug, PartialEq, Eq, Structural)]
pub struct Face {
    /// A halfedge bounding this face.
    pub hh: HalfedgeHandle,
}

/// A halfedge whose handles are all invalid.
pub open spec fn is_unlinked_halfedge(h: Halfedge) -> bool {
    &&& h.fh.spec_index() == INVALID_INDEX
    &&& h.vh.spec_index() == INVALID_INDEX
    &&& h.hnext.spec_index() == INVALID_INDEX
    &&& h.hprev.spec_index() == INVALID_INDEX
}

impl Default for Vertex {
    fn default() -> (v: Self)
        ensures
            v.hh.spec_index() == INVALID_INDEX,
    {
        Vertex { hh: HalfedgeHandle::new() }
    }
}

impl Default for Halfedge {
    fn default() -> (h: Self)
        ensures
            is_unlinked_halfedge(h),
    {
        Halfedge {
            fh: FaceHandle::new(),
            vh: VertexHandle::new(),
            hnext: HalfedgeHandle::new(),
            hprev: HalfedgeHandle::new(),
        }
    }
}

impl Default for Edge {
    fn default() -> (e: Self)
        ensures
            is_unlinked_halfedge(e.0[0]),
            is_unlinked_halfedge(e.0[1]),
    {
        Edge([Halfedge::default(), Halfedge::default()])
    }
}

impl Default for Face {
    fn default() -> (f: Self)
        ensures
            f.hh.spec_index() == INVALID_INDEX,
    {
        Face { hh: HalfedgeHandle::new() }
    }
}


impl StorageItemHandle for VertexHandle {
    open spec fn is_default_item(x: Vertex) -> bool {
        x.hh.spec_index() == INVALID_INDEX
    }

    proof fn lemma_view_len(items: Seq<Vertex>) {
    }

    fn default_item() -> (x: Vertex) {
        Vertex::default()
    }
}

impl StorageItemHandle for EdgeHandle {
    open spec fn is_default_item(x: Edge) -> bool {
        is_unlinked_halfedge(x.0[0]) && is_unlinked_halfedge(x.0[1])
    }

    proof fn lemma_view_len(items: Seq<Edge>) {
    }

    fn default_item() -> (x: Edge) {
        Edge::default()
    }
}

impl StorageItemHandle for FaceHandle {
    open spec fn is_default_item(x: Face) -> bool {
        x.hh.spec_index() == INVALID_INDEX
    }

    proof fn lemma_view_len(items: Seq<Face>) {
    }

    fn default_item() -> (x: Face) {
        Face::default()
    }
}

/// Manages immutable operations on the list of a particular mesh item type. These are created
/// by `Mesh`'s methods `vertices()`, `halfedges()`, `edges()`, `faces()`.
pub struct Items<'a, H: MeshItemHandle> {
    /// Item connectivity.
    items: &'a Vec<H::ContainerItem>,
    /// Item properties.
    props: &'a PropertyContainer<H>,
}

impl<'a, H: MeshItemHandle> Items<'a, H> {
    /// The stored items.
    pub closed spec fn spec_items(&self) -> Seq<H::ContainerItem> {
        self.items@
    }

    /// The property container of the item type.
    pub closed spec fn spec_props(&self) -> PropertyContainer<H> {
        *self.props
    }

    /// The number of items.
    pub open spec fn count(&self) -> nat {
        H::spec_view(self.spec_items()).len()
    }

    /// Instantiates an item + property interface struct.
    pub(crate) fn new(items: &'a Vec<H::ContainerItem>, props: &'a PropertyContainer<H>) -> (r: Self)
        ensures
            r.spec_items() == items@,
            r.spec_props() == *props,
    {
        Items { items, props }
    }

    /// Number of items of the item type.
    fn len_us(&self) -> (n: usize)
        requires
            self.count() <= usize::MAX,
        ensures
            n == self.count(),
    {
        H::num_items(self.items)
    }

    /// Number of items of the item type.
    pub fn len(&self) -> (n: Size)
        requires
            self.count() <= Size::MAX,
        ensures
            n == self.count(),
    {
        self.len_us() as Size
    }

    /// Whether the handle is within the range of the underlying container. Even if valid, the
    /// handle could point to a deleted item.
    pub fn is_valid(&self, handle: H) -> (b: bool)
        requires
            self.count() <= Size::MAX,
        ensures
            b == (handle.spec_index() < self.count()),
    {
        let idx = handle.index();
        idx < self.len()
    }

    /// Gets the item at the handle.
    pub fn get(&self, handle: H) -> (r: Option<&'a H::Item>)
        ensures
            match r {
                Some(x) => handle.spec_index() < self.count()
                    && *x == H::spec_view(self.spec_items())[handle.spec_index() as int],
                None => handle.spec_index() >= self.count(),
            },
    {
        H::get(self.items, handle)
    }

    /// Returns the properties container associated with the mesh item type.
    pub fn props(&self) -> (r: Props<'a, H>)
        requires
            self.count() <= Size::MAX,
        ensures
            r.spec_props() == self.spec_props(),
            r.spec_len() == self.count(),
    {
        Props::new(self.props, self.len())
    }

    /// Returns the properties container associated with the mesh item type.
    pub fn into_props(self) -> (r: Props<'a, H>)
        requires
            self.count() <= Size::MAX,
        ensures
            r.spec_props() == self.spec_props(),
            r.spec_len() == self.count(),
    {
        let len = self.len();
        Props::new(self.props, len)
    }

    /// Returns true when there are no items of the mesh item type.
    pub fn empty(&self) -> (b: bool)
        requires
            self.count() <= usize::MAX,
        ensures
            b == (self.count() == 0),
    {
        self.len_us() == 0
    }
}


/// Manages immutable and mutable operations on the list of a particular mesh item type. These
/// are created by `Mesh`'s methods `vertices_mut()`, `halfedges_mut()`, `edges_mut()`,
/// `faces_mut()`. Addition and removal are not available for halfedges, which belong to edges
/// that must be added or removed instead. What is done through it reads back through the mesh
/// once it is dropped (see `group_views_resolved`).
pub struct ItemsMut<'a, H: MeshItemHandle> {
    /// Item connectivity.
    items: &'a mut Vec<H::ContainerItem>,
    /// Item properties.
    props: &'a mut PropertyContainer<H>,
}

impl<'a, H: MeshItemHandle> ItemsMut<'a, H> {
    /// The stored items, as they are now.
    pub closed spec fn spec_items(&self) -> Seq<H::ContainerItem> {
        self.items@
    }

    /// The property container of the item type, as it is now.
    pub closed spec fn spec_props(&self) -> PropertyContainer<H> {
        *self.props
    }

    /// The borrowed storage vector.
    pub closed spec fn target_items(&self) -> &'a mut Vec<H::ContainerItem> {
        self.items
    }

    /// The borrowed property container.
    pub closed spec fn target_props(&self) -> &'a mut PropertyContainer<H> {
        self.props
    }

    /// The number of items.
    pub open spec fn count(&self) -> nat {
        H::spec_view(self.spec_items()).len()
    }

    /// Instantiates an item + property mutable interface struct.
    pub(crate) fn new(items: &'a mut Vec<H::ContainerItem>, props: &'a mut PropertyContainer<H>) -> (r: Self)
        ensures
            r.spec_items() == old(items)@,
            r.spec_props() == *old(props),
            *final(r.target_items()) == *final(items),
            *final(r.target_props()) == *final(props),
    {
        ItemsMut { items, props }
    }

    /// Number of items of the item type.
    fn len_us(&self) -> (n: usize)
        requires
            self.count() <= usize::MAX,
        ensures
            n == self.count(),
    {
        H::num_items(self.items)
    }

    /// Number of items of the item type.
    pub fn len(&self) -> (n: Size)
        requires
            self.count() <= Size::MAX,
        ensures
            n == self.count(),
    {
        self.len_us() as Size
    }

    /// Whether the handle is within the range of the underlying container. Even if valid, the
    /// handle could point to a deleted item.
    pub fn is_valid(&self, handle: H) -> (b: bool)
        requires
            self.count() <= Size::MAX,
        ensures
            b == (handle.spec_index() < self.count()),
    {
        let idx = handle.index();
        idx < self.len()
    }

    /// Gets the item at the handle.
    pub fn get(&self, handle: H) -> (r: Option<&H::Item>)
        ensures
            match r {
                Some(x) => handle.spec_index() < self.count()
                    && *x == H::spec_view(self.spec_items())[handle.spec_index() as int],
                None => handle.spec_index() >= self.count(),
            },
    {
        H::get(self.items, handle)
    }

    /// Returns the properties container associated with the mesh item type.
    pub fn props(&self) -> (r: Props<'_, H>)
        requires
            self.count() <= Size::MAX,
        ensures
            r.spec_props() == self.spec_props(),
            r.spec_len() == self.count(),
    {
        Props::new(self.props, self.len())
    }

    /// Returns true when there are no items of the mesh item type.
    pub fn empty(&self) -> (b: bool)
        requires
            self.count() <= usize::MAX,
        ensures
            b == (self.count() == 0),
    {
        self.len_us() == 0
    }

    /// Gets the mutable item at the handle.
    pub fn get_mut(&mut self, handle: H) -> (r: Option<&mut H::Item>)
        ensures
            *final(final(self).target_items()) == *final(old(self).target_items()),
            *final(final(self).target_props()) == *final(old(self).target_props()),
            final(self).spec_props() == old(self).spec_props(),
            match r {
                Some(x) => {
                    &&& handle.spec_index() < old(self).count()
                    &&& *x == H::spec_view(old(self).spec_items())[handle.spec_index() as int]
                    &&& H::spec_view(final(self).spec_items())
                        == H::spec_view(old(self).spec_items()).update(handle.spec_index() as int, *final(x))
                },
                None => handle.spec_index() >= old(self).count()
                    && final(self).spec_items() == old(self).spec_items(),
            },
    {
        H::get_mut(self.items, handle)
    }

    /// Returns the mutable properties container associated with the mesh item type.
    pub fn props_mut(&mut self) -> (r: PropsMut<'_, H>)
        requires
            old(self).count() <= Size::MAX,
        ensures
            r.spec_props() == old(self).spec_props(),
            r.spec_len() == old(self).count(),
            final(self).spec_props() == *final(r.target()),
            final(self).spec_items() == old(self).spec_items(),
            *final(final(self).target_items()) == *final(old(self).target_items()),
            *final(final(self).target_props()) == *final(old(self).target_props()),
    {
        let len = self.len();
        PropsMut::new(self.props, len)
    }

    /// Returns the mutable properties container associated with the mesh item type.
    pub fn into_props_mut(self) -> (r: PropsMut<'a, H>)
        requires
            self.count() <= Size::MAX,
        ensures
            r.spec_props() == self.spec_props(),
            r.spec_len() == self.count(),
            *final(r.target()) == *final(self.target_props()),
            final(self.target_items())@ == self.spec_items(),
    {
        let len = self.len();
        PropsMut::new(self.props, len)
    }
}


/// `items1` and `props1` are `items0` and `props0` after appending an item: one more item, a
/// default one after the others, and one more value, a default one, in each property list.
pub open spec fn items_appended<H: StorageItemHandle>(
    items0: Seq<H::ContainerItem>,
    props0: PropertyContainer<H>,
    items1: Seq<H::ContainerItem>,
    props1: PropertyContainer<H>,
) -> bool {
    &&& items1.len() == items0.len() + 1
    &&& items1.subrange(0, items0.len() as int) == items0
    &&& H::is_default_item(items1.last())
    &&& props1.slots().len() == props0.slots().len()
    &&& forall|j: int| 0 <= j < props0.slots().len()
        ==> slot_pushed(#[trigger] props0.slots()[j], props1.slots()[j])
}

/// A vertex appended to a mesh is not yet connected to anything: it has no outgoing halfedge.
pub proof fn lemma_appended_vertex_unlinked(
    items0: Seq<Vertex>,
    props0: PropertyContainer<VertexHandle>,
    items1: Seq<Vertex>,
    props1: PropertyContainer<VertexHandle>,
)
    requires
        items_appended::<VertexHandle>(items0, props0, items1, props1),
    ensures
        items1.last().hh.spec_index() == INVALID_INDEX,
{
}

/// A face appended to a mesh is not yet connected to anything: it has no bounding halfedge.
pub proof fn lemma_appended_face_unlinked(
    items0: Seq<Face>,
    props0: PropertyContainer<FaceHandle>,
    items1: Seq<Face>,
    props1: PropertyContainer<FaceHandle>,
)
    requires
        items_appended::<FaceHandle>(items0, props0, items1, props1),
    ensures
        items1.last().hh.spec_index() == INVALID_INDEX,
{
}

/// An edge appended to a mesh is not yet connected to anything: neither of its halfedges has a
/// face, an end vertex, or a next or previous halfedge.
pub proof fn lemma_appended_edge_unlinked(
    items0: Seq<Edge>,
    props0: PropertyContainer<EdgeHandle>,
    items1: Seq<Edge>,
    props1: PropertyContainer<EdgeHandle>,
)
    requires
        items_appended::<EdgeHandle>(items0, props0, items1, props1),
    ensures
        forall|k: int| 0 <= k < 2 ==> {
            &&& (#[trigger] items1.last().0[k]).fh.spec_index() == INVALID_INDEX
            &&& items1.last().0[k].vh.spec_index() == INVALID_INDEX
            &&& items1.last().0[k].hnext.spec_index() == INVALID_INDEX
            &&& items1.last().0[k].hprev.spec_index() == INVALID_INDEX
        },
{
    assert forall|k: int| 0 <= k < 2 implies is_unlinked_halfedge(#[trigger] items1.last().0[k]) by {}
}

/// Once an item view is no longer used, the item vector and property container it borrows hold
/// what the view last held. With this lemma in scope, what is done through the view reads back
/// through the mesh once the view is dropped.
pub broadcast proof fn lemma_items_mut_resolved<'a, H: MeshItemHandle>(v: ItemsMut<'a, H>)
    requires
        #[trigger] has_resolved(v),
    ensures
        final(v.target_items())@ == v.spec_items(),
        *final(v.target_props()) == v.spec_props(),
{
}

// Only for item types stored as themselves; in particular not for halfedges.
impl<'a, H: StorageItemHandle> ItemsMut<'a, H> {
    /// Adds a new item at the end, with a default value in each property list, and returns its
    /// handle.
    pub fn append(&mut self) -> (h: H)
        requires
            old(self).spec_items().len() < Size::MAX,
            forall|j: int| 0 <= j < old(self).spec_props().slots().len() ==> (
                #[trigger] old(self).spec_props().slots()[j] matches Some(p) ==> p.spec_len() < usize::MAX),
        ensures
            h.spec_index() == old(self).spec_items().len(),
            items_appended::<H>(old(self).spec_items(), old(self).spec_props(), final(self).spec_items(), final(self).spec_props()),
            *final(final(self).target_items()) == *final(old(self).target_items()),
            *final(final(self).target_props()) == *final(old(self).target_props()),
    {
        let old_len = self.items.len() as Size;
        self.items.push(H::default_item());
        assert(old(self).spec_props().slots() == self.props.slots());
        self.props.push_all();
        assert(self.items@.subrange(0, old_len as int) =~= old(self).spec_items());
        H::from_index(old_len)
    }

    /// Reserves space for `n` items in total.
    /// Only the allocated capacity grows, which depends on the allocator and is not modelled
    /// here; the contract states that everything else stays as it was.
    pub(crate) fn reserve(&mut self, n: Size)
        ensures
            final(self).spec_items() == old(self).spec_items(),
            final(self).spec_props().slots().len() == old(self).spec_props().slots().len(),
            forall|j: int| 0 <= j < old(self).spec_props().slots().len()
                ==> slot_unchanged(#[trigger] old(self).spec_props().slots()[j], final(self).spec_props().slots()[j]),
            *final(final(self).target_items()) == *final(old(self).target_items()),
            *final(final(self).target_props()) == *final(old(self).target_props()),
    {
        self.props.reserve_all(n);
        let len = self.items.len();
        if len < n as usize {
            self.items.reserve(n as usize - len);
        }
    }

    /// Resizes to having exactly `n` items; new items are default ones.
    pub(crate) fn resize(&mut self, n: Size)
        requires
            n < INVALID_INDEX,
        ensures
            final(self).spec_items().len() == n,
            forall|k: int| 0 <= k < n ==> if k < old(self).spec_items().len() {
                #[trigger] final(self).spec_items()[k] == old(self).spec_items()[k]
            } else {
                H::is_default_item(final(self).spec_items()[k])
            },
            final(self).spec_props().slots().len() == old(self).spec_props().slots().len(),
            forall|j: int| 0 <= j < old(self).spec_props().slots().len()
                ==> slot_resized(#[trigger] old(self).spec_props().slots()[j], final(self).spec_props().slots()[j], n as nat),
            *final(final(self).target_items()) == *final(old(self).target_items()),
            *final(final(self).target_props()) == *final(old(self).target_props()),
    {
        self.props.resize_all(n);
        let ghost resized = self.props.slots();
        let n = n as usize;
        self.items.truncate(n);
        while self.items.len() < n
            invariant
                self.props.slots() == resized,
                *final(self.target_items()) == *final(old(self).target_items()),
                *final(self.target_props()) == *final(old(self).target_props()),
                self.items@.len() <= n,
                forall|k: int| 0 <= k < self.items@.len() ==> if k < old(self).spec_items().len() {
                    #[trigger] self.items@[k] == old(self).spec_items()[k]
                } else {
                    H::is_default_item(self.items@[k])
                },
                n < old(self).spec_items().len() ==> self.items@.len() == n,
                n >= old(self).spec_items().len() ==> self.items@.len() >= old(self).spec_items().len(),
            decreases n - self.items@.len(),
        {
            self.items.push(H::default_item());
        }
    }

    /// Removes all items, and clears all property lists.
    pub(crate) fn clear(&mut self)
        ensures
            final(self).spec_items().len() == 0,
            final(self).spec_props().slots().len() == old(self).spec_props().slots().len(),
            forall|j: int| 0 <= j < old(self).spec_props().slots().len()
                ==> slot_cleared(#[trigger] old(self).spec_props().slots()[j], final(self).spec_props().slots()[j]),
            *final(final(self).target_items()) == *final(old(self).target_items()),
            *final(final(self).target_props()) == *final(old(self).target_props()),
    {
        self.props.clear_all();
        self.items.clear();
    }
}

}
