//! The halfedge data structure: items, their property containers and the standard properties.

use vstd::prelude::*;
use crate::mesh::item_handle::{
    item_count, EdgeHandle, FaceHandle, HalfedgeHandle, MeshHandle, MeshItemHandle, StorageItemHandle,
    VertexHandle,
};
use crate::mesh::items::{items_appended, Edge, Face, Halfedge, Items, ItemsMut, Vertex};
use crate::mesh::prop::{has_item_prefix, Props, PropsMut};
use crate::mesh::rc::{release_prop, request_prop, RcPropHandle};
use crate::mesh::status::Status;
use crate::property::container::{is_first_free, slot_pushed, slot_unchanged, slots_debug, PropertyContainer};
use crate::property::handle::{Handle, PropHandle};
use crate::property::value::Value;
use crate::property::list::PropertyList;
use crate::property::size::{Size, INVALID_INDEX};
use crate::util::text::concat;

verus! {

/// Halfedge data structure.
pub struct Mesh {
    // Item connectivity.
    pub(crate) vertices: Vec<Vertex>,
    pub(crate) edges: Vec<Edge>,
    pub(crate) faces: Vec<Face>,
    // Properties by item type.
    pub(crate) v_props: PropertyContainer<VertexHandle>,
    pub(crate) h_props: PropertyContainer<HalfedgeHandle>,
    pub(crate) e_props: PropertyContainer<EdgeHandle>,
    pub(crate) f_props: PropertyContainer<FaceHandle>,
    pub(crate) m_props: PropertyContainer<MeshHandle>,
    // Handles for the item status.
    pub(crate) v_status: RcPropHandle<VertexHandle, Status>,
    pub(crate) h_status: RcPropHandle<HalfedgeHandle, Status>,
    pub(crate) e_status: RcPropHandle<EdgeHandle, Status>,
    pub(crate) f_status: RcPropHandle<FaceHandle, Status>,
}

impl MeshItemHandle for VertexHandle {
    type Item = Vertex;
    type ContainerItem = Vertex;

    open spec fn spec_view(items: Seq<Vertex>) -> Seq<Vertex> {
        items
    }

    closed spec fn spec_items(m: &Mesh) -> Seq<Vertex> {
        m.vertices@
    }

    closed spec fn spec_props(m: &Mesh) -> PropertyContainer<VertexHandle> {
        m.v_props
    }

    closed spec fn spec_status(m: &Mesh) -> PropHandle<VertexHandle, Status> {
        m.v_status.spec_handle()
    }

    closed spec fn spec_status_refs(m: &Mesh) -> nat {
        m.v_status.spec_count()
    }

    closed spec fn spec_with(m: Mesh, items: Vec<Vertex>, props: PropertyContainer<VertexHandle>) -> Mesh {
        Mesh { vertices: items, v_props: props, ..m }
    }

    open spec fn spec_prefix() -> Seq<char> {
        seq!['v', ':']
    }

    proof fn lemma_with(m: Mesh, items: Vec<Vertex>, props: PropertyContainer<VertexHandle>) {
    }

    fn with_prefix(name: &str) -> (s: String) {
        let prefix = "v:";
        proof {
            reveal_strlit("v:");
        }
        concat(prefix, name)
    }

    fn num_items(vec: &Vec<Vertex>) -> (n: usize) {
        vec.len()
    }

    fn get(vec: &Vec<Vertex>, handle: VertexHandle) -> (r: Option<&Vertex>) {
        let i = handle.index_us();
        if i < vec.len() {
            Some(&vec[i])
        } else {
            None
        }
    }

    fn get_mut(vec: &mut Vec<Vertex>, handle: VertexHandle) -> (r: Option<&mut Vertex>) {
        let i = handle.index_us();
        if i < vec.len() {
            Some(&mut vec[i])
        } else {
            None
        }
    }

    fn items_props(m: &Mesh) -> (r: (&Vec<Vertex>, &PropertyContainer<VertexHandle>)) {
        let p = &m.v_props;
        assert(*p == Self::spec_props(m));
        (&m.vertices, p)
    }

    fn items_props_mut(m: &mut Mesh) -> (r: (&mut Vec<Vertex>, &mut PropertyContainer<VertexHandle>)) {
        (&mut m.vertices, &mut m.v_props)
    }

    fn status_prop(mesh: &Mesh) -> (r: Option<&PropertyList<Status, VertexHandle>>) {
        mesh.v_props.get(mesh.v_status.handle())
    }
}
impl MeshItemHandle for HalfedgeHandle {
    type Item = Halfedge;
    type ContainerItem = Edge;

    open spec fn spec_view(items: Seq<Edge>) -> Seq<Halfedge> {
        Seq::new(2 * items.len(), |k: int| items[k / 2].0@[k % 2])
    }

    closed spec fn spec_items(m: &Mesh) -> Seq<Edge> {
        m.edges@
    }

    closed spec fn spec_props(m: &Mesh) -> PropertyContainer<HalfedgeHandle> {
        m.h_props
    }

    closed spec fn spec_status(m: &Mesh) -> PropHandle<HalfedgeHandle, Status> {
        m.h_status.spec_handle()
    }

    closed spec fn spec_status_refs(m: &Mesh) -> nat {
        m.h_status.spec_count()
    }

    closed spec fn spec_with(m: Mesh, items: Vec<Edge>, props: PropertyContainer<HalfedgeHandle>) -> Mesh {
        Mesh { edges: items, h_props: props, ..m }
    }

    open spec fn spec_prefix() -> Seq<char> {
        seq!['h', ':']
    }

    proof fn lemma_with(m: Mesh, items: Vec<Edge>, props: PropertyContainer<HalfedgeHandle>) {
    }

    fn with_prefix(name: &str) -> (s: String) {
        let prefix = "h:";
        proof {
            reveal_strlit("h:");
        }
        concat(prefix, name)
    }

    fn num_items(vec: &Vec<Edge>) -> (n: usize) {
        vec.len() * 2
    }

    fn get(vec: &Vec<Edge>, handle: HalfedgeHandle) -> (r: Option<&Halfedge>) {
        let index = handle.index_us();
        if index / 2 < vec.len() {
            Some(&vec[index / 2].0[index % 2])
        } else {
            None
        }
    }

    fn get_mut(vec: &mut Vec<Edge>, handle: HalfedgeHandle) -> (r: Option<&mut Halfedge>) {
        let index = handle.index_us();
        if index / 2 < vec.len() {
            let edge = &mut vec[index / 2];
            Some(&mut edge.0[index % 2])
        } else {
            None
        }
    }

    fn items_props(m: &Mesh) -> (r: (&Vec<Edge>, &PropertyContainer<HalfedgeHandle>)) {
        let p = &m.h_props;
        assert(*p == Self::spec_props(m));
        (&m.edges, p)
    }

    fn items_props_mut(m: &mut Mesh) -> (r: (&mut Vec<Edge>, &mut PropertyContainer<HalfedgeHandle>)) {
        (&mut m.edges, &mut m.h_props)
    }

    fn status_prop(mesh: &Mesh) -> (r: Option<&PropertyList<Status, HalfedgeHandle>>) {
        mesh.h_props.get(mesh.h_status.handle())
    }
}

impl MeshItemHandle for EdgeHandle {
    type Item = Edge;
    type ContainerItem = Edge;

    open spec fn spec_view(items: Seq<Edge>) -> Seq<Edge> {
        items
    }

    closed spec fn spec_items(m: &Mesh) -> Seq<Edge> {
        m.edges@
    }

    closed spec fn spec_props(m: &Mesh) -> PropertyContainer<EdgeHandle> {
        m.e_props
    }

    closed spec fn spec_status(m: &Mesh) -> PropHandle<EdgeHandle, Status> {
        m.e_status.spec_handle()
    }

    closed spec fn spec_status_refs(m: &Mesh) -> nat {
        m.e_status.spec_count()
    }

    closed spec fn spec_with(m: Mesh, items: Vec<Edge>, props: PropertyContainer<EdgeHandle>) -> Mesh {
        Mesh { edges: items, e_props: props, ..m }
    }

    open spec fn spec_prefix() -> Seq<char> {
        seq!['e', ':']
    }

    proof fn lemma_with(m: Mesh, items: Vec<Edge>, props: PropertyContainer<EdgeHandle>) {
    }

    fn with_prefix(name: &str) -> (s: String) {
        let prefix = "e:";
        proof {
            reveal_strlit("e:");
        }
        concat(prefix, name)
    }

    fn num_items(vec: &Vec<Edge>) -> (n: usize) {
        vec.len()
    }

    fn get(vec: &Vec<Edge>, handle: EdgeHandle) -> (r: Option<&Edge>) {
        let i = handle.index_us();
        if i < vec.len() {
            Some(&vec[i])
        } else {
            None
        }
    }

    fn get_mut(vec: &mut Vec<Edge>, handle: EdgeHandle) -> (r: Option<&mut Edge>) {
        let i = handle.index_us();
        if i < vec.len() {
            Some(&mut vec[i])
        } else {
            None
        }
    }

    fn items_props(m: &Mesh) -> (r: (&Vec<Edge>, &PropertyContainer<EdgeHandle>)) {
        let p = &m.e_props;
        assert(*p == Self::spec_props(m));
        (&m.edges, p)
    }

    fn items_props_mut(m: &mut Mesh) -> (r: (&mut Vec<Edge>, &mut PropertyContainer<EdgeHandle>)) {
        (&mut m.edges, &mut m.e_props)
    }

    fn status_prop(mesh: &Mesh) -> (r: Option<&PropertyList<Status, EdgeHandle>>) {
        mesh.e_props.get(mesh.e_status.handle())
    }
}
impl MeshItemHandle for FaceHandle {
    type Item = Face;
    type ContainerItem = Face;

    open spec fn spec_view(items: Seq<Face>) -> Seq<Face> {
        items
    }

    closed spec fn spec_items(m: &Mesh) -> Seq<Face> {
        m.faces@
    }

    closed spec fn spec_props(m: &Mesh) -> PropertyContainer<FaceHandle> {
        m.f_props
    }

    closed spec fn spec_status(m: &Mesh) -> PropHandle<FaceHandle, Status> {
        m.f_status.spec_handle()
    }

    closed spec fn spec_status_refs(m: &Mesh) -> nat {
        m.f_status.spec_count()
    }

    closed spec fn spec_with(m: Mesh, items: Vec<Face>, props: PropertyContainer<FaceHandle>) -> Mesh {
        Mesh { faces: items, f_props: props, ..m }
    }

    open spec fn spec_prefix() -> Seq<char> {
        seq!['f', ':']
    }

    proof fn lemma_with(m: Mesh, items: Vec<Face>, props: PropertyContainer<FaceHandle>) {
    }

    fn with_prefix(name: &str) -> (s: String) {
        let prefix = "f:";
        proof {
            reveal_strlit("f:");
        }
        concat(prefix, name)
    }

    fn num_items(vec: &Vec<Face>) -> (n: usize) {
        vec.len()
    }

    fn get(vec: &Vec<Face>, handle: FaceHandle) -> (r: Option<&Face>) {
        let i = handle.index_us();
        if i < vec.len() {
            Some(&vec[i])
        } else {
            None
        }
    }

    fn get_mut(vec: &mut Vec<Face>, handle: FaceHandle) -> (r: Option<&mut Face>) {
        let i = handle.index_us();
        if i < vec.len() {
            Some(&mut vec[i])
        } else {
            None
        }
    }

    fn items_props(m: &Mesh) -> (r: (&Vec<Face>, &PropertyContainer<FaceHandle>)) {
        let p = &m.f_props;
        assert(*p == Self::spec_props(m));
        (&m.faces, p)
    }

    fn items_props_mut(m: &mut Mesh) -> (r: (&mut Vec<Face>, &mut PropertyContainer<FaceHandle>)) {
        (&mut m.faces, &mut m.f_props)
    }

    fn status_prop(mesh: &Mesh) -> (r: Option<&PropertyList<Status, FaceHandle>>) {
        mesh.f_props.get(mesh.f_status.handle())
    }
}


/// The name of the status property, before the item type's prefix.
pub open spec fn status_name() -> Seq<char> {
    seq!['s', 't', 'a', 't', 'u', 's']
}

/// The items of type `H` in `m` are none, with no properties and no status requested.
pub open spec fn is_empty_kind<H: MeshItemHandle>(m: &Mesh) -> bool {
    &&& H::spec_items(m).len() == 0
    &&& H::spec_props(m).slots().len() == 0
    &&& H::spec_status_refs(m) == 0
    &&& H::spec_status(m).spec_index() == INVALID_INDEX
}

/// The status property of item type `H` can be requested on `m`: the count does not overflow,
/// and where the property is added, its length and the slot it takes are valid indices.
pub open spec fn can_request_status<H: MeshItemHandle>(m: &Mesh) -> bool {
    &&& item_count::<H>(m) <= Size::MAX
    &&& H::spec_status_refs(m) < u32::MAX
    &&& H::spec_status_refs(m) == 0 ==> {
        &&& item_count::<H>(m) < INVALID_INDEX
        &&& forall|pos: int| is_first_free(H::spec_props(m).slots(), pos) ==> pos < INVALID_INDEX
    }
}

/// `new` is `old` after a request for the status property of item type `H`: the first request
/// adds the list, with a default status for each item; each request counts.
pub open spec fn status_requested<H: MeshItemHandle>(old: &Mesh, new: &Mesh) -> bool {
    &&& H::spec_items(new) == H::spec_items(old)
    &&& H::spec_status_refs(new) == H::spec_status_refs(old) + 1
    &&& if H::spec_status_refs(old) == 0 {
        H::spec_props(old).is_added(
            H::spec_props(new),
            H::spec_status(new),
            H::spec_prefix() + status_name(),
            item_count::<H>(old),
        )
    } else {
        H::spec_props(new).slots() == H::spec_props(old).slots() && H::spec_status(new) == H::spec_status(old)
    }
}

/// `new` is `old` after a release of the status property of item type `H`: the last release
/// removes the list; a release without a request changes nothing.
pub open spec fn status_released<H: MeshItemHandle>(old: &Mesh, new: &Mesh) -> bool {
    &&& H::spec_items(new) == H::spec_items(old)
    &&& if H::spec_status_refs(old) == 0 {
        &&& H::spec_status_refs(new) == 0
        &&& H::spec_props(new).slots() == H::spec_props(old).slots()
        &&& H::spec_status(new) == H::spec_status(old)
    } else if H::spec_status_refs(old) == 1 {
        &&& H::spec_status_refs(new) == 0
        &&& H::spec_props(old).is_removed(H::spec_props(new), H::spec_status(old))
        &&& H::spec_status(new).spec_index() == INVALID_INDEX
    } else {
        &&& H::spec_status_refs(new) == H::spec_status_refs(old) - 1
        &&& H::spec_props(new).slots() == H::spec_props(old).slots()
        &&& H::spec_status(new) == H::spec_status(old)
    }
}

/// `new` is `old` after the status list `l` of item type `H` became `l_final`, everything else
/// unchanged.
pub open spec fn status_list_updated<H: MeshItemHandle>(
    old: &Mesh,
    new: &Mesh,
    l: PropertyList<Status, H>,
    l_final: PropertyList<Status, H>,
) -> bool {
    &&& H::spec_props(old).lookup(H::spec_status(old)) == Some(l)
    &&& H::spec_props(new).lookup(H::spec_status(new)) == Some(l_final)
    &&& H::spec_items(new) == H::spec_items(old)
    &&& H::spec_status(new) == H::spec_status(old)
    &&& H::spec_status_refs(new) == H::spec_status_refs(old)
    &&& H::spec_props(new).slots().len() == H::spec_props(old).slots().len()
    &&& forall|j: int| 0 <= j < H::spec_props(old).slots().len() && j != H::spec_status(old).spec_index()
        ==> #[trigger] H::spec_props(new).slots()[j] == H::spec_props(old).slots()[j]
}

/// The items of type `H`, their properties and their status are the same in `old` and `new`.
pub open spec fn kind_unchanged<H: MeshItemHandle>(old: &Mesh, new: &Mesh) -> bool {
    &&& H::spec_items(new) == H::spec_items(old)
    &&& H::spec_props(new).slots() == H::spec_props(old).slots()
    &&& H::spec_status(new) == H::spec_status(old)
    &&& H::spec_status_refs(new) == H::spec_status_refs(old)
}

/// `m` has no status list of item type `H`.
pub open spec fn no_status_list<H: MeshItemHandle>(m: &Mesh) -> bool {
    H::spec_props(m).lookup(H::spec_status(m)) is None
}

impl Default for Mesh {
    fn default() -> (m: Self)
        ensures
            is_empty_kind::<VertexHandle>(&m),
            is_empty_kind::<HalfedgeHandle>(&m),
            is_empty_kind::<EdgeHandle>(&m),
            is_empty_kind::<FaceHandle>(&m),
            m.spec_m_props().slots().len() == 0,
    {
        Mesh::from_parts(Vec::new(), Vec::new(), Vec::new())
    }
}

impl Mesh {
    /// The property container of the mesh itself.
    pub closed spec fn spec_m_props(&self) -> PropertyContainer<MeshHandle> {
        self.m_props
    }

    /// Creates a mesh from the given parts, with no properties.
    pub(crate) fn from_parts(vertices: Vec<Vertex>, edges: Vec<Edge>, faces: Vec<Face>) -> (m: Mesh)
        ensures
            VertexHandle::spec_items(&m) == vertices@,
            HalfedgeHandle::spec_items(&m) == edges@,
            EdgeHandle::spec_items(&m) == edges@,
            FaceHandle::spec_items(&m) == faces@,
            VertexHandle::spec_props(&m).slots().len() == 0,
            HalfedgeHandle::spec_props(&m).slots().len() == 0,
            EdgeHandle::spec_props(&m).slots().len() == 0,
            FaceHandle::spec_props(&m).slots().len() == 0,
            m.spec_m_props().slots().len() == 0,
            VertexHandle::spec_status_refs(&m) == 0,
            HalfedgeHandle::spec_status_refs(&m) == 0,
            EdgeHandle::spec_status_refs(&m) == 0,
            FaceHandle::spec_status_refs(&m) == 0,
            VertexHandle::spec_status(&m).spec_index() == INVALID_INDEX,
            HalfedgeHandle::spec_status(&m).spec_index() == INVALID_INDEX,
            EdgeHandle::spec_status(&m).spec_index() == INVALID_INDEX,
            FaceHandle::spec_status(&m).spec_index() == INVALID_INDEX,
    {
        Mesh {
            vertices,
            edges,
            faces,
            v_props: PropertyContainer::new(),
            h_props: PropertyContainer::new(),
            e_props: PropertyContainer::new(),
            f_props: PropertyContainer::new(),
            m_props: PropertyContainer::new(),
            v_status: RcPropHandle::default(),
            h_status: RcPropHandle::default(),
            e_status: RcPropHandle::default(),
            f_status: RcPropHandle::default(),
        }
    }

    /// The items and properties of the item type `H`.
    pub(crate) fn items<H: MeshItemHandle>(&self) -> (r: Items<'_, H>)
        ensures
            r.spec_items() == H::spec_items(self),
            r.spec_props() == H::spec_props(self),
    {
        let (items, props) = H::items_props(self);
        Items::new(items, props)
    }

    /// The items and properties of the item type `H`, mutably.
    pub(crate) fn items_mut<H: MeshItemHandle>(&mut self) -> (r: ItemsMut<'_, H>)
        ensures
            r.spec_items() == H::spec_items(old(self)),
            r.spec_props() == H::spec_props(old(self)),
            *final(self) == H::spec_with(*old(self), *final(r.target_items()), *final(r.target_props())),
    {
        let (items, props) = H::items_props_mut(self);
        ItemsMut::new(items, props)
    }

    /// The properties of the item type `H`.
    pub(crate) fn props<H: MeshItemHandle>(&self) -> (r: Props<'_, H>)
        requires
            item_count::<H>(self) <= Size::MAX,
        ensures
            r.spec_props() == H::spec_props(self),
            r.spec_len() == item_count::<H>(self),
    {
        self.items::<H>().into_props()
    }
}


impl Mesh {
    /// Returns a struct to access vertex mesh items and properties.
    pub fn vertices(&self) -> (r: Items<'_, VertexHandle>)
        ensures
            r.spec_items() == VertexHandle::spec_items(self),
            r.spec_props() == VertexHandle::spec_props(self),
    {
        self.items()
    }

    /// Returns a struct to mutably access vertex mesh items and properties.
    pub fn vertices_mut(&mut self) -> (r: ItemsMut<'_, VertexHandle>)
        ensures
            r.spec_items() == VertexHandle::spec_items(old(self)),
            r.spec_props() == VertexHandle::spec_props(old(self)),
            *final(self) == VertexHandle::spec_with(*old(self), *final(r.target_items()), *final(r.target_props())),
            VertexHandle::spec_items(final(self)) == final(r.target_items())@,
            VertexHandle::spec_props(final(self)) == *final(r.target_props()),
            VertexHandle::spec_status(final(self)) == VertexHandle::spec_status(old(self)),
            VertexHandle::spec_status_refs(final(self)) == VertexHandle::spec_status_refs(old(self)),
            kind_unchanged::<HalfedgeHandle>(old(self), final(self)),
            kind_unchanged::<EdgeHandle>(old(self), final(self)),
            kind_unchanged::<FaceHandle>(old(self), final(self)),
            final(self).spec_m_props() == old(self).spec_m_props(),
    {
        let r = self.items_mut::<VertexHandle>();
        proof {
            VertexHandle::lemma_with(*old(self), *final(r.target_items()), *final(r.target_props()));
        }
        r
    }

    /// Returns a struct to access vertex properties.
    pub fn v_props(&self) -> (r: Props<'_, VertexHandle>)
        requires
            item_count::<VertexHandle>(self) <= Size::MAX,
        ensures
            r.spec_props() == VertexHandle::spec_props(self),
            r.spec_len() == item_count::<VertexHandle>(self),
    {
        self.props()
    }

    /// Returns a struct to mutably access vertex properties.
    pub fn v_props_mut(&mut self) -> (r: PropsMut<'_, VertexHandle>)
        requires
            item_count::<VertexHandle>(old(self)) <= Size::MAX,
        ensures
            r.spec_props() == VertexHandle::spec_props(old(self)),
            r.spec_len() == item_count::<VertexHandle>(old(self)),
            VertexHandle::spec_items(final(self)) == VertexHandle::spec_items(old(self)),
            VertexHandle::spec_props(final(self)) == *final(r.target()),
            VertexHandle::spec_status(final(self)) == VertexHandle::spec_status(old(self)),
            VertexHandle::spec_status_refs(final(self)) == VertexHandle::spec_status_refs(old(self)),
            kind_unchanged::<HalfedgeHandle>(old(self), final(self)),
            kind_unchanged::<EdgeHandle>(old(self), final(self)),
            kind_unchanged::<FaceHandle>(old(self), final(self)),
            final(self).spec_m_props() == old(self).spec_m_props(),
    {
        let items = self.items_mut::<VertexHandle>();
        let r = items.into_props_mut();
        proof {
            VertexHandle::lemma_with(*old(self), *final(items.target_items()), *final(items.target_props()));
        }
        r
    }

    /// Requests the vertex status property on the mesh if it doesn't already exist. It increases
    /// the ref count.
    pub fn request_vertex_status(&mut self)
        requires
            can_request_status::<VertexHandle>(old(self)),
        ensures
            status_requested::<VertexHandle>(old(self), final(self)),
            kind_unchanged::<HalfedgeHandle>(old(self), final(self)),
            kind_unchanged::<EdgeHandle>(old(self), final(self)),
            kind_unchanged::<FaceHandle>(old(self), final(self)),
            final(self).spec_m_props() == old(self).spec_m_props(),
    {
        let size = VertexHandle::len(self);
        let name = "status";
        proof {
            reveal_strlit("status");
            assert(name@ =~= status_name());
            assert(VertexHandle::spec_props(old(self)).slots() == self.v_props.slots());
        }
        request_prop(name, &mut self.v_props, &mut self.v_status, size);
    }

    /// Releases the vertex status property on the mesh if it exists. If the ref count becomes 0,
    /// it removes the property.
    pub fn release_vertex_status(&mut self)
        ensures
            status_released::<VertexHandle>(old(self), final(self)),
            kind_unchanged::<HalfedgeHandle>(old(self), final(self)),
            kind_unchanged::<EdgeHandle>(old(self), final(self)),
            kind_unchanged::<FaceHandle>(old(self), final(self)),
            final(self).spec_m_props() == old(self).spec_m_props(),
    {
        release_prop(&mut self.v_props, &mut self.v_status);
    }

    /// Gets the vertex status property list if it exists.
    pub fn get_vertex_status(&self) -> (r: Option<&PropertyList<Status, VertexHandle>>)
        ensures
            match r {
                Some(l) => VertexHandle::spec_props(self).lookup(VertexHandle::spec_status(self)) == Some(*l),
                None => no_status_list::<VertexHandle>(self),
            },
    {
        self.v_props.get(self.v_status.handle())
    }

    /// Gets the vertex status property list mutably if it exists.
    pub fn get_vertex_status_mut(&mut self) -> (r: Option<&mut PropertyList<Status, VertexHandle>>)
        ensures
            match r {
                Some(l) => status_list_updated::<VertexHandle>(old(self), final(self), *l, *final(l)),
                None => no_status_list::<VertexHandle>(old(self))
                    && VertexHandle::spec_items(final(self)) == VertexHandle::spec_items(old(self))
                    && VertexHandle::spec_props(final(self)).slots() == VertexHandle::spec_props(old(self)).slots()
                    && VertexHandle::spec_status(final(self)) == VertexHandle::spec_status(old(self))
                    && VertexHandle::spec_status_refs(final(self)) == VertexHandle::spec_status_refs(old(self)),
            },
            kind_unchanged::<HalfedgeHandle>(old(self), final(self)),
            kind_unchanged::<EdgeHandle>(old(self), final(self)),
            kind_unchanged::<FaceHandle>(old(self), final(self)),
            final(self).spec_m_props() == old(self).spec_m_props(),
    {
        let h = self.v_status.handle();
        self.v_props.get_mut(h)
    }

    /// Returns a struct to access halfedge mesh items and properties.
    pub fn halfedges(&self) -> (r: Items<'_, HalfedgeHandle>)
        ensures
            r.spec_items() == HalfedgeHandle::spec_items(self),
            r.spec_props() == HalfedgeHandle::spec_props(self),
    {
        self.items()
    }

    /// Returns a struct to mutably access halfedge mesh items and properties.
    pub fn halfedges_mut(&mut self) -> (r: ItemsMut<'_, HalfedgeHandle>)
        ensures
            r.spec_items() == HalfedgeHandle::spec_items(old(self)),
            r.spec_props() == HalfedgeHandle::spec_props(old(self)),
            *final(self) == HalfedgeHandle::spec_with(*old(self), *final(r.target_items()), *final(r.target_props())),
            HalfedgeHandle::spec_items(final(self)) == final(r.target_items())@,
            HalfedgeHandle::spec_props(final(self)) == *final(r.target_props()),
            HalfedgeHandle::spec_status(final(self)) == HalfedgeHandle::spec_status(old(self)),
            HalfedgeHandle::spec_status_refs(final(self)) == HalfedgeHandle::spec_status_refs(old(self)),
            kind_unchanged::<VertexHandle>(old(self), final(self)),
            EdgeHandle::spec_items(final(self)) == final(r.target_items())@,
            EdgeHandle::spec_props(final(self)) == EdgeHandle::spec_props(old(self)),
            EdgeHandle::spec_status(final(self)) == EdgeHandle::spec_status(old(self)),
            EdgeHandle::spec_status_refs(final(self)) == EdgeHandle::spec_status_refs(old(self)),
            kind_unchanged::<FaceHandle>(old(self), final(self)),
            final(self).spec_m_props() == old(self).spec_m_props(),
    {
        let r = self.items_mut::<HalfedgeHandle>();
        proof {
            HalfedgeHandle::lemma_with(*old(self), *final(r.target_items()), *final(r.target_props()));
        }
        r
    }

    /// Returns a struct to access halfedge properties.
    pub fn h_props(&self) -> (r: Props<'_, HalfedgeHandle>)
        requires
            item_count::<HalfedgeHandle>(self) <= Size::MAX,
        ensures
            r.spec_props() == HalfedgeHandle::spec_props(self),
            r.spec_len() == item_count::<HalfedgeHandle>(self),
    {
        self.props()
    }

    /// Returns a struct to mutably access halfedge properties.
    pub fn h_props_mut(&mut self) -> (r: PropsMut<'_, HalfedgeHandle>)
        requires
            item_count::<HalfedgeHandle>(old(self)) <= Size::MAX,
        ensures
            r.spec_props() == HalfedgeHandle::spec_props(old(self)),
            r.spec_len() == item_count::<HalfedgeHandle>(old(self)),
            HalfedgeHandle::spec_items(final(self)) == HalfedgeHandle::spec_items(old(self)),
            HalfedgeHandle::spec_props(final(self)) == *final(r.target()),
            HalfedgeHandle::spec_status(final(self)) == HalfedgeHandle::spec_status(old(self)),
            HalfedgeHandle::spec_status_refs(final(self)) == HalfedgeHandle::spec_status_refs(old(self)),
            kind_unchanged::<VertexHandle>(old(self), final(self)),
            kind_unchanged::<EdgeHandle>(old(self), final(self)),
            kind_unchanged::<FaceHandle>(old(self), final(self)),
            final(self).spec_m_props() == old(self).spec_m_props(),
    {
        let items = self.items_mut::<HalfedgeHandle>();
        let r = items.into_props_mut();
        proof {
            HalfedgeHandle::lemma_with(*old(self), *final(items.target_items()), *final(items.target_props()));
        }
        r
    }

    /// Requests the halfedge status property on the mesh if it doesn't already exist. It increases
    /// the ref count.
    pub fn request_halfedge_status(&mut self)
        requires
            can_request_status::<HalfedgeHandle>(old(self)),
        ensures
            status_requested::<HalfedgeHandle>(old(self), final(self)),
            kind_unchanged::<VertexHandle>(old(self), final(self)),
            kind_unchanged::<EdgeHandle>(old(self), final(self)),
            kind_unchanged::<FaceHandle>(old(self), final(self)),
            final(self).spec_m_props() == old(self).spec_m_props(),
    {
        let size = HalfedgeHandle::len(self);
        let name = "status";
        proof {
            reveal_strlit("status");
            assert(name@ =~= status_name());
            assert(HalfedgeHandle::spec_props(old(self)).slots() == self.h_props.slots());
        }
        request_prop(name, &mut self.h_props, &mut self.h_status, size);
    }

    /// Releases the halfedge status property on the mesh if it exists. If the ref count becomes 0,
    /// it removes the property.
    pub fn release_halfedge_status(&mut self)
        ensures
            status_released::<HalfedgeHandle>(old(self), final(self)),
            kind_unchanged::<VertexHandle>(old(self), final(self)),
            kind_unchanged::<EdgeHandle>(old(self), final(self)),
            kind_unchanged::<FaceHandle>(old(self), final(self)),
            final(self).spec_m_props() == old(self).spec_m_props(),
    {
        release_prop(&mut self.h_props, &mut self.h_status);
    }

    /// Gets the halfedge status property list if it exists.
    pub fn get_halfedge_status(&self) -> (r: Option<&PropertyList<Status, HalfedgeHandle>>)
        ensures
            match r {
                Some(l) => HalfedgeHandle::spec_props(self).lookup(HalfedgeHandle::spec_status(self)) == Some(*l),
                None => no_status_list::<HalfedgeHandle>(self),
            },
    {
        self.h_props.get(self.h_status.handle())
    }

    /// Gets the halfedge status property list mutably if it exists.
    pub fn get_halfedge_status_mut(&mut self) -> (r: Option<&mut PropertyList<Status, HalfedgeHandle>>)
        ensures
            match r {
                Some(l) => status_list_updated::<HalfedgeHandle>(old(self), final(self), *l, *final(l)),
                None => no_status_list::<HalfedgeHandle>(old(self))
                    && HalfedgeHandle::spec_items(final(self)) == HalfedgeHandle::spec_items(old(self))
                    && HalfedgeHandle::spec_props(final(self)).slots() == HalfedgeHandle::spec_props(old(self)).slots()
                    && HalfedgeHandle::spec_status(final(self)) == HalfedgeHandle::spec_status(old(self))
                    && HalfedgeHandle::spec_status_refs(final(self)) == HalfedgeHandle::spec_status_refs(old(self)),
            },
            kind_unchanged::<VertexHandle>(old(self), final(self)),
            kind_unchanged::<EdgeHandle>(old(self), final(self)),
            kind_unchanged::<FaceHandle>(old(self), final(self)),
            final(self).spec_m_props() == old(self).spec_m_props(),
    {
        let h = self.h_status.handle();
        self.h_props.get_mut(h)
    }

    /// Returns a struct to access edge mesh items and properties.
    pub fn edges(&self) -> (r: Items<'_, EdgeHandle>)
        ensures
            r.spec_items() == EdgeHandle::spec_items(self),
            r.spec_props() == EdgeHandle::spec_props(self),
    {
        self.items()
    }

    /// Returns a struct to mutably access edge mesh items and properties.
    pub fn edges_mut(&mut self) -> (r: ItemsMut<'_, EdgeHandle>)
        ensures
            r.spec_items() == EdgeHandle::spec_items(old(self)),
            r.spec_props() == EdgeHandle::spec_props(old(self)),
            *final(self) == EdgeHandle::spec_with(*old(self), *final(r.target_items()), *final(r.target_props())),
            EdgeHandle::spec_items(final(self)) == final(r.target_items())@,
            EdgeHandle::spec_props(final(self)) == *final(r.target_props()),
            EdgeHandle::spec_status(final(self)) == EdgeHandle::spec_status(old(self)),
            EdgeHandle::spec_status_refs(final(self)) == EdgeHandle::spec_status_refs(old(self)),
            kind_unchanged::<VertexHandle>(old(self), final(self)),
            HalfedgeHandle::spec_items(final(self)) == final(r.target_items())@,
            HalfedgeHandle::spec_props(final(self)) == HalfedgeHandle::spec_props(old(self)),
            HalfedgeHandle::spec_status(final(self)) == HalfedgeHandle::spec_status(old(self)),
            HalfedgeHandle::spec_status_refs(final(self)) == HalfedgeHandle::spec_status_refs(old(self)),
            kind_unchanged::<FaceHandle>(old(self), final(self)),
            final(self).spec_m_props() == old(self).spec_m_props(),
    {
        let r = self.items_mut::<EdgeHandle>();
        proof {
            EdgeHandle::lemma_with(*old(self), *final(r.target_items()), *final(r.target_props()));
        }
        r
    }

    /// Returns a struct to access edge properties.
    pub fn e_props(&self) -> (r: Props<'_, EdgeHandle>)
        requires
            item_count::<EdgeHandle>(self) <= Size::MAX,
        ensures
            r.spec_props() == EdgeHandle::spec_props(self),
            r.spec_len() == item_count::<EdgeHandle>(self),
    {
        self.props()
    }

    /// Returns a struct to mutably access edge properties.
    pub fn e_props_mut(&mut self) -> (r: PropsMut<'_, EdgeHandle>)
        requires
            item_count::<EdgeHandle>(old(self)) <= Size::MAX,
        ensures
            r.spec_props() == EdgeHandle::spec_props(old(self)),
            r.spec_len() == item_count::<EdgeHandle>(old(self)),
            EdgeHandle::spec_items(final(self)) == EdgeHandle::spec_items(old(self)),
            EdgeHandle::spec_props(final(self)) == *final(r.target()),
            EdgeHandle::spec_status(final(self)) == EdgeHandle::spec_status(old(self)),
            EdgeHandle::spec_status_refs(final(self)) == EdgeHandle::spec_status_refs(old(self)),
            kind_unchanged::<VertexHandle>(old(self), final(self)),
            kind_unchanged::<HalfedgeHandle>(old(self), final(self)),
            kind_unchanged::<FaceHandle>(old(self), final(self)),
            final(self).spec_m_props() == old(self).spec_m_props(),
    {
        let items = self.items_mut::<EdgeHandle>();
        let r = items.into_props_mut();
        proof {
            EdgeHandle::lemma_with(*old(self), *final(items.target_items()), *final(items.target_props()));
        }
        r
    }

    /// Requests the edge status property on the mesh if it doesn't already exist. It increases
    /// the ref count.
    pub fn request_edge_status(&mut self)
        requires
            can_request_status::<EdgeHandle>(old(self)),
        ensures
            status_requested::<EdgeHandle>(old(self), final(self)),
            kind_unchanged::<VertexHandle>(old(self), final(self)),
            kind_unchanged::<HalfedgeHandle>(old(self), final(self)),
            kind_unchanged::<FaceHandle>(old(self), final(self)),
            final(self).spec_m_props() == old(self).spec_m_props(),
    {
        let size = EdgeHandle::len(self);
        let name = "status";
        proof {
            reveal_strlit("status");
            assert(name@ =~= status_name());
            assert(EdgeHandle::spec_props(old(self)).slots() == self.e_props.slots());
        }
        request_prop(name, &mut self.e_props, &mut self.e_status, size);
    }

    /// Releases the edge status property on the mesh if it exists. If the ref count becomes 0,
    /// it removes the property.
    pub fn release_edge_status(&mut self)
        ensures
            status_released::<EdgeHandle>(old(self), final(self)),
            kind_unchanged::<VertexHandle>(old(self), final(self)),
            kind_unchanged::<HalfedgeHandle>(old(self), final(self)),
            kind_unchanged::<FaceHandle>(old(self), final(self)),
            final(self).spec_m_props() == old(self).spec_m_props(),
    {
        release_prop(&mut self.e_props, &mut self.e_status);
    }

    /// Gets the edge status property list if it exists.
    pub fn get_edge_status(&self) -> (r: Option<&PropertyList<Status, EdgeHandle>>)
        ensures
            match r {
                Some(l) => EdgeHandle::spec_props(self).lookup(EdgeHandle::spec_status(self)) == Some(*l),
                None => no_status_list::<EdgeHandle>(self),
            },
    {
        self.e_props.get(self.e_status.handle())
    }

    /// Gets the edge status property list mutably if it exists.
    pub fn get_edge_status_mut(&mut self) -> (r: Option<&mut PropertyList<Status, EdgeHandle>>)
        ensures
            match r {
                Some(l) => status_list_updated::<EdgeHandle>(old(self), final(self), *l, *final(l)),
                None => no_status_list::<EdgeHandle>(old(self))
                    && EdgeHandle::spec_items(final(self)) == EdgeHandle::spec_items(old(self))
                    && EdgeHandle::spec_props(final(self)).slots() == EdgeHandle::spec_props(old(self)).slots()
                    && EdgeHandle::spec_status(final(self)) == EdgeHandle::spec_status(old(self))
                    && EdgeHandle::spec_status_refs(final(self)) == EdgeHandle::spec_status_refs(old(self)),
            },
            kind_unchanged::<VertexHandle>(old(self), final(self)),
            kind_unchanged::<HalfedgeHandle>(old(self), final(self)),
            kind_unchanged::<FaceHandle>(old(self), final(self)),
            final(self).spec_m_props() == old(self).spec_m_props(),
    {
        let h = self.e_status.handle();
        self.e_props.get_mut(h)
    }

    /// Returns a struct to access face mesh items and properties.
    pub fn faces(&self) -> (r: Items<'_, FaceHandle>)
        ensures
            r.spec_items() == FaceHandle::spec_items(self),
            r.spec_props() == FaceHandle::spec_props(self),
    {
        self.items()
    }

    /// Returns a struct to mutably access face mesh items and properties.
    pub fn faces_mut(&mut self) -> (r: ItemsMut<'_, FaceHandle>)
        ensures
            r.spec_items() == FaceHandle::spec_items(old(self)),
            r.spec_props() == FaceHandle::spec_props(old(self)),
            *final(self) == FaceHandle::spec_with(*old(self), *final(r.target_items()), *final(r.target_props())),
            FaceHandle::spec_items(final(self)) == final(r.target_items())@,
            FaceHandle::spec_props(final(self)) == *final(r.target_props()),
            FaceHandle::spec_status(final(self)) == FaceHandle::spec_status(old(self)),
            FaceHandle::spec_status_refs(final(self)) == FaceHandle::spec_status_refs(old(self)),
            kind_unchanged::<VertexHandle>(old(self), final(self)),
            kind_unchanged::<HalfedgeHandle>(old(self), final(self)),
            kind_unchanged::<EdgeHandle>(old(self), final(self)),
            final(self).spec_m_props() == old(self).spec_m_props(),
    {
        let r = self.items_mut::<FaceHandle>();
        proof {
            FaceHandle::lemma_with(*old(self), *final(r.target_items()), *final(r.target_props()));
        }
        r
    }

    /// Returns a struct to access face properties.
    pub fn f_props(&self) -> (r: Props<'_, FaceHandle>)
        requires
            item_count::<FaceHandle>(self) <= Size::MAX,
        ensures
            r.spec_props() == FaceHandle::spec_props(self),
            r.spec_len() == item_count::<FaceHandle>(self),
    {
        self.props()
    }

    /// Returns a struct to mutably access face properties.
    pub fn f_props_mut(&mut self) -> (r: PropsMut<'_, FaceHandle>)
        requires
            item_count::<FaceHandle>(old(self)) <= Size::MAX,
        ensures
            r.spec_props() == FaceHandle::spec_props(old(self)),
            r.spec_len() == item_count::<FaceHandle>(old(self)),
            FaceHandle::spec_items(final(self)) == FaceHandle::spec_items(old(self)),
            FaceHandle::spec_props(final(self)) == *final(r.target()),
            FaceHandle::spec_status(final(self)) == FaceHandle::spec_status(old(self)),
            FaceHandle::spec_status_refs(final(self)) == FaceHandle::spec_status_refs(old(self)),
            kind_unchanged::<VertexHandle>(old(self), final(self)),
            kind_unchanged::<HalfedgeHandle>(old(self), final(self)),
            kind_unchanged::<EdgeHandle>(old(self), final(self)),
            final(self).spec_m_props() == old(self).spec_m_props(),
    {
        let items = self.items_mut::<FaceHandle>();
        let r = items.into_props_mut();
        proof {
            FaceHandle::lemma_with(*old(self), *final(items.target_items()), *final(items.target_props()));
        }
        r
    }

    /// Requests the face status property on the mesh if it doesn't already exist. It increases
    /// the ref count.
    pub fn request_face_status(&mut self)
        requires
            can_request_status::<FaceHandle>(old(self)),
        ensures
            status_requested::<FaceHandle>(old(self), final(self)),
            kind_unchanged::<VertexHandle>(old(self), final(self)),
            kind_unchanged::<HalfedgeHandle>(old(self), final(self)),
            kind_unchanged::<EdgeHandle>(old(self), final(self)),
            final(self).spec_m_props() == old(self).spec_m_props(),
    {
        let size = FaceHandle::len(self);
        let name = "status";
        proof {
            reveal_strlit("status");
            assert(name@ =~= status_name());
            assert(FaceHandle::spec_props(old(self)).slots() == self.f_props.slots());
        }
        request_prop(name, &mut self.f_props, &mut self.f_status, size);
    }

    /// Releases the face status property on the mesh if it exists. If the ref count becomes 0,
    /// it removes the property.
    pub fn release_face_status(&mut self)
        ensures
            status_released::<FaceHandle>(old(self), final(self)),
            kind_unchanged::<VertexHandle>(old(self), final(self)),
            kind_unchanged::<HalfedgeHandle>(old(self), final(self)),
            kind_unchanged::<EdgeHandle>(old(self), final(self)),
            final(self).spec_m_props() == old(self).spec_m_props(),
    {
        release_prop(&mut self.f_props, &mut self.f_status);
    }

    /// Gets the face status property list if it exists.
    pub fn get_face_status(&self) -> (r: Option<&PropertyList<Status, FaceHandle>>)
        ensures
            match r {
                Some(l) => FaceHandle::spec_props(self).lookup(FaceHandle::spec_status(self)) == Some(*l),
                None => no_status_list::<FaceHandle>(self),
            },
    {
        self.f_props.get(self.f_status.handle())
    }

    /// Gets the face status property list mutably if it exists.
    pub fn get_face_status_mut(&mut self) -> (r: Option<&mut PropertyList<Status, FaceHandle>>)
        ensures
            match r {
                Some(l) => status_list_updated::<FaceHandle>(old(self), final(self), *l, *final(l)),
                None => no_status_list::<FaceHandle>(old(self))
                    && FaceHandle::spec_items(final(self)) == FaceHandle::spec_items(old(self))
                    && FaceHandle::spec_props(final(self)).slots() == FaceHandle::spec_props(old(self)).slots()
                    && FaceHandle::spec_status(final(self)) == FaceHandle::spec_status(old(self))
                    && FaceHandle::spec_status_refs(final(self)) == FaceHandle::spec_status_refs(old(self)),
            },
            kind_unchanged::<VertexHandle>(old(self), final(self)),
            kind_unchanged::<HalfedgeHandle>(old(self), final(self)),
            kind_unchanged::<EdgeHandle>(old(self), final(self)),
            final(self).spec_m_props() == old(self).spec_m_props(),
    {
        let h = self.f_status.handle();
        self.f_props.get_mut(h)
    }

    /// Returns a struct to access mesh properties.
    pub fn m_props(&self) -> (r: Props<'_, MeshHandle>)
        ensures
            r.spec_props() == self.spec_m_props(),
            r.spec_len() == 1,
    {
        Props::new(&self.m_props, 1)
    }

    /// Returns a struct to mutably access mesh properties.
    pub fn m_props_mut(&mut self) -> (r: PropsMut<'_, MeshHandle>)
        ensures
            r.spec_props() == old(self).spec_m_props(),
            r.spec_len() == 1,
            final(self).spec_m_props() == *final(r.target()),
            kind_unchanged::<VertexHandle>(old(self), final(self)),
            kind_unchanged::<HalfedgeHandle>(old(self), final(self)),
            kind_unchanged::<EdgeHandle>(old(self), final(self)),
            kind_unchanged::<FaceHandle>(old(self), final(self)),
    {
        PropsMut::new(&mut self.m_props, 1)
    }
}


/// Releasing the status property of item type `H` right after its first request removes it
/// again: the count is back to zero, the handle the request made refers to nothing and the
/// mesh's status handle is invalid, and the slots of the other property lists are as before.
pub proof fn lemma_request_release<H: MeshItemHandle>(m0: &Mesh, m1: &Mesh, m2: &Mesh)
    requires
        H::spec_status_refs(m0) == 0,
        status_requested::<H>(m0, m1),
        status_released::<H>(m1, m2),
    ensures
        H::spec_status_refs(m2) == 0,
        H::spec_props(m2).lookup(H::spec_status(m1)) is None,
        H::spec_status(m2).spec_index() == INVALID_INDEX,
        H::spec_items(m2) == H::spec_items(m0),
        H::spec_props(m2).slots().subrange(0, H::spec_props(m0).slots().len() as int) == H::spec_props(m0).slots(),
{
    crate::property::container::lemma_add_then_remove(
        H::spec_props(m0),
        H::spec_props(m1),
        H::spec_props(m2),
        H::spec_status(m1),
        H::spec_prefix() + status_name(),
        item_count::<H>(m0),
    );
    crate::property::container::lemma_removed_is_gone(H::spec_props(m1), H::spec_props(m2), H::spec_status(m1));
    assert(H::spec_props(m2).slots().subrange(0, H::spec_props(m0).slots().len() as int)
        =~= H::spec_props(m0).slots());
}


/// Each property list of item type `H` in `m` holds one value per item of that type.
pub open spec fn props_in_sync<H: MeshItemHandle>(m: &Mesh) -> bool {
    forall|j: int| 0 <= j < H::spec_props(m).slots().len() && #[trigger] H::spec_props(m).slots()[j] is Some
        ==> H::spec_props(m).slots()[j].unwrap().spec_len() == item_count::<H>(m)
}

/// Requesting the status property of item type `H` keeps each property list of that type as
/// long as the item list: the status list added by the first request holds one status per item.
pub proof fn lemma_request_keeps_sync<H: MeshItemHandle>(m0: &Mesh, m1: &Mesh)
    requires
        props_in_sync::<H>(m0),
        status_requested::<H>(m0, m1),
    ensures
        props_in_sync::<H>(m1),
{
    if H::spec_status_refs(m0) == 0 {
        let h = H::spec_status(m1);
        let i = h.spec_index() as int;
        assert(H::spec_props(m1).slots()[i] is Some);
        <Status as Value<H>>::lemma_as_list(H::spec_props(m1).slots()[i].unwrap());
        assert forall|j: int| 0 <= j < H::spec_props(m1).slots().len() && #[trigger] H::spec_props(m1).slots()[j] is Some
            implies H::spec_props(m1).slots()[j].unwrap().spec_len() == item_count::<H>(m1) by {
            if j != i {
                assert(H::spec_props(m1).slots()[j] == H::spec_props(m0).slots()[j]);
            }
        }
    }
}

/// Releasing the status property of item type `H` keeps each property list of that type as long
/// as the item list.
pub proof fn lemma_release_keeps_sync<H: MeshItemHandle>(m0: &Mesh, m1: &Mesh)
    requires
        props_in_sync::<H>(m0),
        status_released::<H>(m0, m1),
    ensures
        props_in_sync::<H>(m1),
{
    if H::spec_status_refs(m0) == 1 {
        let h = H::spec_status(m0);
        assert forall|j: int| 0 <= j < H::spec_props(m1).slots().len() && #[trigger] H::spec_props(m1).slots()[j] is Some
            implies H::spec_props(m1).slots()[j].unwrap().spec_len() == item_count::<H>(m1) by {
            assert(H::spec_props(m0).slots()[j] is Some);
        }
    }
}

/// Adding a property list of item type `H` through the mesh's property view (which holds the
/// number of items) keeps each property list of that type as long as the item list.
pub proof fn lemma_add_keeps_sync<H: MeshItemHandle, T: Value<H>>(
    m0: &Mesh,
    m1: &Mesh,
    h: PropHandle<H, T>,
    name: Seq<char>,
)
    requires
        props_in_sync::<H>(m0),
        H::spec_items(m1) == H::spec_items(m0),
        H::spec_props(m0).is_added(H::spec_props(m1), h, name, item_count::<H>(m0)),
    ensures
        props_in_sync::<H>(m1),
{
    let i = h.spec_index() as int;
    assert(H::spec_props(m1).slots()[i] is Some);
    T::lemma_as_list(H::spec_props(m1).slots()[i].unwrap());
    assert forall|j: int| 0 <= j < H::spec_props(m1).slots().len() && #[trigger] H::spec_props(m1).slots()[j] is Some
        implies H::spec_props(m1).slots()[j].unwrap().spec_len() == item_count::<H>(m1) by {
        if j != i {
            assert(H::spec_props(m1).slots()[j] == H::spec_props(m0).slots()[j]);
        }
    }
}

/// Each item type names its properties with a prefix of its own, its letter and a colon: `v:` for
/// vertices, `h:` for halfedges, `e:` for edges and `f:` for faces. No two item types share a
/// prefix, so the status lists of different item types have different names, and every name
/// with one of these prefixes is one that `PropsMut::add` keeps from users.
pub proof fn lemma_item_prefixes()
    ensures
        VertexHandle::spec_prefix() == seq!['v', ':'],
        HalfedgeHandle::spec_prefix() == seq!['h', ':'],
        EdgeHandle::spec_prefix() == seq!['e', ':'],
        FaceHandle::spec_prefix() == seq!['f', ':'],
        VertexHandle::spec_prefix() != HalfedgeHandle::spec_prefix(),
        VertexHandle::spec_prefix() != EdgeHandle::spec_prefix(),
        VertexHandle::spec_prefix() != FaceHandle::spec_prefix(),
        HalfedgeHandle::spec_prefix() != EdgeHandle::spec_prefix(),
        HalfedgeHandle::spec_prefix() != FaceHandle::spec_prefix(),
        EdgeHandle::spec_prefix() != FaceHandle::spec_prefix(),
        forall|n: Seq<char>| #[trigger] has_item_prefix(VertexHandle::spec_prefix() + n),
        forall|n: Seq<char>| #[trigger] has_item_prefix(HalfedgeHandle::spec_prefix() + n),
        forall|n: Seq<char>| #[trigger] has_item_prefix(EdgeHandle::spec_prefix() + n),
        forall|n: Seq<char>| #[trigger] has_item_prefix(FaceHandle::spec_prefix() + n),
{
    assert(VertexHandle::spec_prefix()[0] != HalfedgeHandle::spec_prefix()[0]);
    assert(VertexHandle::spec_prefix()[0] != EdgeHandle::spec_prefix()[0]);
    assert(VertexHandle::spec_prefix()[0] != FaceHandle::spec_prefix()[0]);
    assert(HalfedgeHandle::spec_prefix()[0] != EdgeHandle::spec_prefix()[0]);
    assert(HalfedgeHandle::spec_prefix()[0] != FaceHandle::spec_prefix()[0]);
    assert(EdgeHandle::spec_prefix()[0] != FaceHandle::spec_prefix()[0]);
}

/// The first request for the status property of item type `H` adds a list named with the
/// type's prefix followed by `status`, holding one status per item, none with any flag set.
pub proof fn lemma_first_request_statuses_empty<H: MeshItemHandle>(m0: &Mesh, m1: &Mesh)
    requires
        H::spec_status_refs(m0) == 0,
        status_requested::<H>(m0, m1),
    ensures
        H::spec_props(m1).lookup(H::spec_status(m1)) matches Some(l)
            && l.spec_name() == H::spec_prefix() + seq!['s', 't', 'a', 't', 'u', 's']
            && l.contents().len() == item_count::<H>(m0)
            && forall|k: int| 0 <= k < l.contents().len() ==> (#[trigger] l.contents()[k]).spec_bits() == 0,
{
    crate::property::storage::lemma_default_values();
}

/// Appending an item through a mutable item view writes through to the mesh: where `view` is the
/// view of item type `H` that `m0` handed out, and `m1` is the mesh once the view, after one
/// `append`, is dropped, `m1` has one more item of type `H`, a default one after the old ones,
/// and each property list of type `H` holds one more value, a default one, after its old values.
/// The mesh's view functions and `group_views_resolved` give the caller these `requires`.
pub proof fn lemma_append_written_back<H: StorageItemHandle>(
    m0: &Mesh,
    m1: &Mesh,
    items: Seq<H::ContainerItem>,
    props: PropertyContainer<H>,
)
    requires
        items_appended::<H>(H::spec_items(m0), H::spec_props(m0), items, props),
        H::spec_items(m1) == items,
        H::spec_props(m1) == props,
    ensures
        item_count::<H>(m1) == item_count::<H>(m0) + 1,
        H::spec_items(m1).drop_last() == H::spec_items(m0),
        H::is_default_item(H::spec_items(m1).last()),
        H::spec_props(m1).slots().len() == H::spec_props(m0).slots().len(),
        forall|j: int| 0 <= j < H::spec_props(m0).slots().len()
            ==> (#[trigger] H::spec_props(m1).slots()[j] is None <==> H::spec_props(m0).slots()[j] is None),
        forall|j: int| 0 <= j < H::spec_props(m0).slots().len() && H::spec_props(m0).slots()[j] is Some
            ==> (#[trigger] H::spec_props(m1).slots()[j]).unwrap().spec_len()
                    == H::spec_props(m0).slots()[j].unwrap().spec_len() + 1
                && H::spec_props(m0).slots()[j].unwrap().rel_pushed(&H::spec_props(m1).slots()[j].unwrap()),
        props_in_sync::<H>(m0) ==> props_in_sync::<H>(m1),
{
    H::lemma_view_len(H::spec_items(m0));
    H::lemma_view_len(H::spec_items(m1));
    assert(H::spec_items(m1).drop_last() =~= H::spec_items(m0));
    if props_in_sync::<H>(m0) {
        assert forall|j: int| 0 <= j < H::spec_props(m1).slots().len() && #[trigger] H::spec_props(m1).slots()[j] is Some
            implies H::spec_props(m1).slots()[j].unwrap().spec_len() == item_count::<H>(m1) by {
            assert(slot_pushed(H::spec_props(m0).slots()[j], H::spec_props(m1).slots()[j]));
            assert(H::spec_props(m0).slots()[j] is Some);
        }
    }
}

/// The property list stats of `m`: for each item type, and then for the mesh itself, a heading
/// and the text describing its property lists.
pub open spec fn prop_stats_text(m: &Mesh) -> Seq<char> {
    "vertex props:\n"@ + slots_debug(VertexHandle::spec_props(m).slots())
        + "halfedge props:\n"@ + slots_debug(HalfedgeHandle::spec_props(m).slots())
        + "edge props:\n"@ + slots_debug(EdgeHandle::spec_props(m).slots())
        + "face props:\n"@ + slots_debug(FaceHandle::spec_props(m).slots())
        + "mesh props:\n"@ + slots_debug(m.spec_m_props().slots())
}

/// Generated by `Mesh::prop_stats()` for outputting property list stats.
pub struct FormattedPropStats<'a>(&'a Mesh);

impl<'a> FormattedPropStats<'a> {
    /// The mesh whose stats are output.
    pub closed spec fn spec_mesh(&self) -> Mesh {
        *self.0
    }

    /// The property list stats of the mesh.
    pub fn debug_string(&self) -> (s: String)
        ensures
            s@ == prop_stats_text(&self.spec_mesh()),
    {
        let m = self.0;
        let s = concat("vertex props:\n", m.v_props.debug_string().as_str());
        let s = concat(s.as_str(), "halfedge props:\n");
        let s = concat(s.as_str(), m.h_props.debug_string().as_str());
        let s = concat(s.as_str(), "edge props:\n");
        let s = concat(s.as_str(), m.e_props.debug_string().as_str());
        let s = concat(s.as_str(), "face props:\n");
        let s = concat(s.as_str(), m.f_props.debug_string().as_str());
        let s = concat(s.as_str(), "mesh props:\n");
        concat(s.as_str(), m.m_props.debug_string().as_str())
    }
}

impl Mesh {
    /// A struct that outputs the property list stats of the mesh.
    pub fn prop_stats(&self) -> (r: FormattedPropStats<'_>)
        ensures
            r.spec_mesh() == *self,
    {
        FormattedPropStats(self)
    }
}


/// The property slots `c` hold copies of the lists in the slots `m`.
pub open spec fn slots_copied<H>(m: PropertyContainer<H>, c: PropertyContainer<H>) -> bool {
    &&& c.slots().len() == m.slots().len()
    &&& forall|j: int| 0 <= j < m.slots().len() ==> slot_unchanged(#[trigger] m.slots()[j], c.slots()[j])
}

/// In `c`, the items of type `H`, their property lists and their status are copies of those of
/// `m`.
pub open spec fn kind_copied<H: MeshItemHandle>(m: &Mesh, c: &Mesh) -> bool {
    &&& H::spec_items(c) == H::spec_items(m)
    &&& slots_copied(H::spec_props(m), H::spec_props(c))
    &&& H::spec_status(c) == H::spec_status(m)
    &&& H::spec_status_refs(c) == H::spec_status_refs(m)
}

/// A copy of the vector `v`.
fn copy_vec<T: Copy>(v: &Vec<T>) -> (r: Vec<T>)
    ensures
        r@ == v@,
{
    let mut out: Vec<T> = Vec::new();
    let mut i: usize = 0;
    while i < v.len()
        invariant
            i <= v@.len(),
            out@ == v@.take(i as int),
        decreases v@.len() - i,
    {
        out.push(v[i]);
        i = i + 1;
        assert(out@ =~= v@.take(i as int));
    }
    assert(v@.take(i as int) =~= v@);
    out
}

impl Clone for Mesh {
    /// Copies the connectivity and all properties, including the reference counts of the
    /// standard properties.
    fn clone(&self) -> (r: Self)
        ensures
            kind_copied::<VertexHandle>(self, &r),
            kind_copied::<HalfedgeHandle>(self, &r),
            kind_copied::<EdgeHandle>(self, &r),
            kind_copied::<FaceHandle>(self, &r),
            slots_copied(self.spec_m_props(), r.spec_m_props()),
    {
        Mesh {
            vertices: copy_vec(&self.vertices),
            edges: copy_vec(&self.edges),
            faces: copy_vec(&self.faces),
            v_props: self.v_props.clone(),
            h_props: self.h_props.clone(),
            e_props: self.e_props.clone(),
            f_props: self.f_props.clone(),
            m_props: self.m_props.clone(),
            v_status: self.v_status,
            h_status: self.h_status,
            e_status: self.e_status,
            f_status: self.f_status,
        }
    }
}

}
