//! Mesh item handle types.

use vstd::prelude::*;
use crate::mesh::mesh::Mesh;
use crate::mesh::status::Status;
use crate::property::container::PropertyContainer;
use crate::property::handle::{Handle, ItemHandle, PropHandle};
use crate::property::list::PropertyList;
use crate::property::size::{Index, Size, INVALID_INDEX};

verus! {

/// Vertex handle.
#[derive(Clone, Copy, PartialEq, Eq, Structural, Debug, Hash)]
pub struct VertexHandle(Index);

impl Handle for VertexHandle {
    closed spec fn spec_index(&self) -> Index {
        self.0
    }

    fn new() -> (h: Self) {
        VertexHandle(INVALID_INDEX)
    }

    fn from_index(idx: Index) -> (h: Self) {
        VertexHandle(idx)
    }

    fn index(self) -> (i: Index) {
        self.0
    }

    fn set_index(&mut self, idx: Index) {
        self.0 = idx;
    }
}

impl ItemHandle for VertexHandle {
}

impl Default for VertexHandle {
    fn default() -> (h: Self)
        ensures
            h.spec_index() == INVALID_INDEX,
    {
        VertexHandle(INVALID_INDEX)
    }
}

/// Halfedge handle.
#[derive(Clone, Copy, PartialEq, Eq, Structural, Debug, Hash)]
pub struct HalfedgeHandle(Index);

impl Handle for HalfedgeHandle {
    closed spec fn spec_index(&self) -> Index {
        self.0
    }

    fn new() -> (h: Self) {
        HalfedgeHandle(INVALID_INDEX)
    }

    fn from_index(idx: Index) -> (h: Self) {
        HalfedgeHandle(idx)
    }

    fn index(self) -> (i: Index) {
        self.0
    }

    fn set_index(&mut self, idx: Index) {
        self.0 = idx;
    }
}

impl ItemHandle for HalfedgeHandle {
}

impl Default for HalfedgeHandle {
    fn default() -> (h: Self)
        ensures
            h.spec_index() == INVALID_INDEX,
    {
        HalfedgeHandle(INVALID_INDEX)
    }
}

/// Edge handle.
#[derive(Clone, Copy, PartialEq, Eq, Structural, Debug, Hash)]
pub struct EdgeHandle(Index);

impl Handle for EdgeHandle {
    closed spec fn spec_index(&self) -> Index {
        self.0
    }

    fn new() -> (h: Self) {
        EdgeHandle(INVALID_INDEX)
    }

    fn from_index(idx: Index) -> (h: Self) {
        EdgeHandle(idx)
    }

    fn index(self) -> (i: Index) {
        self.0
    }

    fn set_index(&mut self, idx: Index) {
        self.0 = idx;
    }
}

impl ItemHandle for EdgeHandle {
}

impl Default for EdgeHandle {
    fn default() -> (h: Self)
        ensures
            h.spec_index() == INVALID_INDEX,
    {
        EdgeHandle(INVALID_INDEX)
    }
}

/// Face handle.
#[derive(Clone, Copy, PartialEq, Eq, Structural, Debug, Hash)]
pub struct FaceHandle(Index);

impl Handle for FaceHandle {
    closed spec fn spec_index(&self) -> Index {
        self.0
    }

    fn new() -> (h: Self) {
        FaceHandle(INVALID_INDEX)
    }

    fn from_index(idx: Index) -> (h: Self) {
        FaceHandle(idx)
    }

    fn index(self) -> (i: Index) {
        self.0
    }

    fn set_index(&mut self, idx: Index) {
        self.0 = idx;
    }
}

impl ItemHandle for FaceHandle {
}

impl Default for FaceHandle {
    fn default() -> (h: Self)
        ensures
            h.spec_index() == INVALID_INDEX,
    {
        FaceHandle(INVALID_INDEX)
    }
}

/// Mesh handle (only needed for parametrizing `PropertyContainer`).
#[derive(Clone, Copy, PartialEq, Eq, Structural, Debug, Hash)]
pub struct MeshHandle(Index);

impl Handle for MeshHandle {
    closed spec fn spec_index(&self) -> Index {
        self.0
    }

    fn new() -> (h: Self) {
        MeshHandle(INVALID_INDEX)
    }

    fn from_index(idx: Index) -> (h: Self) {
        MeshHandle(idx)
    }

    fn index(self) -> (i: Index) {
        self.0
    }

    fn set_index(&mut self, idx: Index) {
        self.0 = idx;
    }
}

impl ItemHandle for MeshHandle {
}

impl Default for MeshHandle {
    fn default() -> (h: Self)
        ensures
            h.spec_index() == INVALID_INDEX,
    {
        MeshHandle(INVALID_INDEX)
    }
}


/// The number of items of type `H` in mesh `m`.
pub open spec fn item_count<H: MeshItemHandle>(m: &Mesh) -> nat {
    H::spec_view(H::spec_items(m)).len()
}

/// Relates each item handle type to the corresponding structures within the mesh: the stored
/// items, the property container and the status property.
pub trait MeshItemHandle: ItemHandle {
    /// Mesh item type corresponding to `Self`: one of `Vertex`, `Halfedge`, `Edge`, `Face`.
    type Item;

    /// Storage item type containing `Self::Item`: `Vertex`, `Edge` and `Face` are stored as
    /// themselves, but each `Halfedge` is stored in an `Edge`.
    type ContainerItem;

    /// The items of type `Self` that the stored items `items` hold, in handle order.
    spec fn spec_view(items: Seq<Self::ContainerItem>) -> Seq<Self::Item>;

    /// The stored items of this type in mesh `m`.
    spec fn spec_items(m: &Mesh) -> Seq<Self::ContainerItem>;

    /// The property container of this item type in mesh `m`.
    spec fn spec_props(m: &Mesh) -> PropertyContainer<Self>;

    /// The handle of the status property of this item type in mesh `m`.
    spec fn spec_status(m: &Mesh) -> PropHandle<Self, Status>;

    /// The number of outstanding requests for the status property of this item type in `m`.
    spec fn spec_status_refs(m: &Mesh) -> nat;

    /// Mesh `m` with the stored items and the property container of this type replaced.
    spec fn spec_with(m: Mesh, items: Vec<Self::ContainerItem>, props: PropertyContainer<Self>) -> Mesh;

    /// The default name prefix of this item type's properties.
    spec fn spec_prefix() -> Seq<char>;

    /// Replacing the items and properties of this type is seen through `spec_items` and
    /// `spec_props`, and leaves the status handle and its count alone.
    proof fn lemma_with(m: Mesh, items: Vec<Self::ContainerItem>, props: PropertyContainer<Self>)
        ensures
            Self::spec_items(&Self::spec_with(m, items, props)) == items@,
            Self::spec_props(&Self::spec_with(m, items, props)) == props,
            Self::spec_status(&Self::spec_with(m, items, props)) == Self::spec_status(&m),
            Self::spec_status_refs(&Self::spec_with(m, items, props)) == Self::spec_status_refs(&m),
    ;

    /// Prepends the name prefix of this item type to `name`.
    fn with_prefix(name: &str) -> (s: String)
        ensures
            s@ == Self::spec_prefix() + name@,
    ;

    /// Number of items of type `Self` in the storage vector `vec`.
    fn num_items(vec: &Vec<Self::ContainerItem>) -> (n: usize)
        requires
            Self::spec_view(vec@).len() <= usize::MAX,
        ensures
            n == Self::spec_view(vec@).len(),
    ;

    /// Gets the number of items of the given type in `mesh`.
    fn len(mesh: &Mesh) -> (n: Size)
        requires
            Self::spec_view(Self::spec_items(mesh)).len() <= Size::MAX,
        ensures
            n == Self::spec_view(Self::spec_items(mesh)).len(),
    {
        let (items, _) = Self::items_props(mesh);
        Self::num_items(items) as Size
    }

    /// Gets the item of type `Self` at `handle` from the storage vector.
    fn get(vec: &Vec<Self::ContainerItem>, handle: Self) -> (r: Option<&Self::Item>)
        ensures
            match r {
                Some(x) => handle.spec_index() < Self::spec_view(vec@).len()
                    && *x == Self::spec_view(vec@)[handle.spec_index() as int],
                None => handle.spec_index() >= Self::spec_view(vec@).len(),
            },
    ;

    /// Gets the item of type `Self` at `handle` mutably from the storage vector.
    fn get_mut(vec: &mut Vec<Self::ContainerItem>, handle: Self) -> (r: Option<&mut Self::Item>)
        ensures
            match r {
                Some(x) => {
                    &&& handle.spec_index() < Self::spec_view(old(vec)@).len()
                    &&& *x == Self::spec_view(old(vec)@)[handle.spec_index() as int]
                    &&& Self::spec_view(final(vec)@)
                        == Self::spec_view(old(vec)@).update(handle.spec_index() as int, *final(x))
                },
                None => handle.spec_index() >= Self::spec_view(old(vec)@).len()
                    && final(vec)@ == old(vec)@,
            },
    ;

    /// Gets the stored items and the property container of this item type out of the mesh.
    fn items_props(m: &Mesh) -> (r: (&Vec<Self::ContainerItem>, &PropertyContainer<Self>))
        ensures
            r.0@ == Self::spec_items(m),
            *r.1 == Self::spec_props(m),
    ;

    /// Gets the stored items and the property container of this item type out of the mesh
    /// mutably.
    fn items_props_mut(m: &mut Mesh) -> (r: (&mut Vec<Self::ContainerItem>, &mut PropertyContainer<Self>))
        ensures
            r.0@ == Self::spec_items(old(m)),
            *r.1 == Self::spec_props(old(m)),
            *final(m) == Self::spec_with(*old(m), *final(r.0), *final(r.1)),
    ;

    /// Gets the status property of this item type, if the mesh has one.
    fn status_prop(mesh: &Mesh) -> (r: Option<&PropertyList<Status, Self>>)
        ensures
            match r {
                Some(l) => Self::spec_props(mesh).lookup(Self::spec_status(mesh)) == Some(*l),
                None => Self::spec_props(mesh).lookup(Self::spec_status(mesh)) is None,
            },
    ;
}


/// An item handle type whose items are stored as themselves (vertices, edges, faces), so that
/// items can be appended one at a time.
pub trait StorageItemHandle: MeshItemHandle {
    /// `x` is a freshly made item, with all its handles invalid.
    spec fn is_default_item(x: Self::ContainerItem) -> bool;

    /// One stored item is one item.
    proof fn lemma_view_len(items: Seq<Self::ContainerItem>)
        ensures
            Self::spec_view(items).len() == items.len(),
    ;

    /// A freshly made item.
    fn default_item() -> (x: Self::ContainerItem)
        ensures
            Self::is_default_item(x),
    ;
}

}
