use openmesh::io::binary::{Binary, Endian};
use openmesh::io::result::{Error, IoError};
use openmesh::mesh::item_handle::{EdgeHandle, FaceHandle, HalfedgeHandle, VertexHandle};
use openmesh::mesh::iter::FwdIter;
use openmesh::mesh::mesh::Mesh;
use openmesh::mesh::status::{Status, DELETED, SELECTED};
use openmesh::property::container::PropertyContainer;
use openmesh::property::handle::{Handle, PropHandle};
use openmesh::property::size::INVALID_INDEX;
use openmesh::property::list::PropertyList;
use openmesh::property::property::{ConstructableProperty, Property, ResizeableProperty};
use openmesh::util::bitvec::BitVec;
use openmesh::util::index::IndexSet;

#[test]
fn store_then_restore_gives_value_back() {
    for endian in [Endian::Little, Endian::Big] {
        let mut buf = Vec::new();
        assert_eq!(0xdeadbeefu32.store(&mut buf, endian), Ok(4));
        let mut v = 0u32;
        assert_eq!(v.restore(&buf, endian), Ok(4));
        assert_eq!(v, 0xdeadbeef);

        let mut buf = Vec::new();
        let s = String::from("größe");
        assert_eq!(s.store(&mut buf, endian), Ok(2 + 7));
        let mut t = String::from("old");
        assert_eq!(t.restore(&buf, endian), Ok(9));
        assert_eq!(t, s);
    }
}

#[test]
fn restore_reads_only_what_was_stored() {
    for endian in [Endian::Little, Endian::Big] {
        let items = vec![String::from("ab"), String::from(""), String::from("xyz")];
        let mut buf = Vec::new();
        assert_eq!(items.store(&mut buf, endian), Ok(2 + 2 + 2 + 3 + 2));
        buf.extend_from_slice(&[0xff, 0xfe, 0xfd]);
        let mut back = vec![String::new(), String::from("old"), String::new()];
        assert_eq!(back.restore(&buf, endian), Ok(11));
        assert_eq!(back, items);

        let mut buf = Vec::new();
        assert_eq!((-2i16).store(&mut buf, endian), Ok(2));
        buf.push(9);
        let mut v = 0i16;
        assert_eq!(v.restore(&buf, endian), Ok(2));
        assert_eq!(v, -2);
    }
}

#[test]
fn restore_reports_unexpected_eof() {
    let mut v = 7u32;
    assert_eq!(v.restore(&[1, 2], Endian::Little), Err(Error::UnexpectedEOF));
    assert_eq!(v, 7);
    let mut s = String::from("kept");
    assert_eq!(s.restore(&[5], Endian::Little), Err(Error::UnexpectedEOF));
    assert_eq!(s, "kept");
    let mut bits = BitVec::from_elem(20, true);
    assert_eq!(bits.restore(&[0xff, 0xff], Endian::Little), Err(Error::UnexpectedEOF));
}

#[test]
fn store_rejects_long_strings() {
    let long = "x".repeat(70000);
    let mut buf = Vec::new();
    assert_eq!(long.store(&mut buf, Endian::Little), Err(Error::StringExceeds64k));
    assert!(buf.is_empty());
}

#[test]
fn restore_rejects_invalid_utf8() {
    let mut s = String::from("old");
    assert_eq!(s.restore(&[2, 0, 0xff, 0xfe], Endian::Little), Err(Error::Io(IoError::InvalidUtf8)));
}

#[test]
fn restore_of_short_string_reads_what_is_there() {
    let mut s = String::new();
    assert_eq!(s.restore(&[5, 0, 104, 105], Endian::Little), Ok(4));
    assert_eq!(s, "hi");
}

#[test]
fn error_descriptions() {
    assert_eq!(Error::Unsupported.description(), "Unsupported functionality");
    assert_eq!(Error::UnexpectedEOF.description(), "Unexpected EOF");
    assert_eq!(Error::StringExceeds64k.description(), "Cannot store string longer than 64Kb");
    assert_eq!(Error::FromUtf8.description(), "Invalid UTF-8");
    assert_eq!(Error::Io(IoError::InvalidUtf8).description(), "stream did not contain valid UTF-8");
    assert_eq!(Error::Io(IoError::UnexpectedEof).description(), "unexpected end of file");
    assert_eq!(Error::Io(IoError::Other).description(), "other error");
}

#[test]
fn pop_undoes_push() {
    let mut bits = BitVec::from_bytes(&[0x5a]);
    let before = bits.clone();
    bits.push(true);
    assert_eq!(bits.len(), 9);
    assert_eq!(bits.pop(), Some(true));
    assert!(bits == before);
    assert_eq!(bits.as_bytes(), &[0x5a]);
}

#[test]
fn container_add_get_remove() {
    let mut c = PropertyContainer::<VertexHandle>::new();
    let h: PropHandle<VertexHandle, u32> = c.add(Some(String::from("weight")), 3);
    assert_eq!(h.index(), 0);
    assert_eq!(c.len(), 1);
    {
        let list = c.get(h).unwrap();
        assert_eq!(list.len(), 3);
        assert_eq!(list.name(), "weight");
        assert_eq!(*list.index(VertexHandle::from_index(2)), 0);
    }
    let found: PropHandle<VertexHandle, u32> = c.handle("weight");
    assert!(found == h);
    let wrong_type: PropHandle<VertexHandle, u8> = c.handle("weight");
    assert_eq!(wrong_type.index(), INVALID_INDEX);
    let missing: PropHandle<VertexHandle, u32> = c.handle("nothing");
    assert!(!missing.is_valid());

    c.get_mut(h).unwrap().index_set(VertexHandle::from_index(1), 42);
    assert_eq!(*c.get(h).unwrap().index(VertexHandle::from_index(1)), 42);

    let other: PropHandle<VertexHandle, bool> = c.add(None, 3);
    assert_eq!(other.index(), 1);
    assert_eq!(c.get(other).unwrap().name(), "<unknown>");

    assert!(c.remove(h));
    assert!(c.get(h).is_none());
    assert!(!c.remove(h));
    assert_eq!(c.len(), 2);

    // The freed slot is taken by the next property.
    let again: PropHandle<VertexHandle, String> = c.add(Some(String::from("label")), 3);
    assert_eq!(again.index(), 0);
    assert_eq!(c.debug_string(), "  label\n\n  <unknown>\n\n");
}

#[test]
fn container_parallel_operations() {
    let mut c = PropertyContainer::<VertexHandle>::new();
    let h: PropHandle<VertexHandle, u16> = c.add(Some(String::from("a")), 2);
    let b: PropHandle<VertexHandle, bool> = c.add(Some(String::from("b")), 2);
    c.get_mut(h).unwrap().index_set(VertexHandle::from_index(0), 5);
    c.get_mut(b).unwrap().index_set(VertexHandle::from_index(0), true);
    c.push_all();
    assert_eq!(c.get(h).unwrap().len(), 3);
    c.swap_all(VertexHandle::from_index(0), VertexHandle::from_index(2));
    assert_eq!(*c.get(h).unwrap().index(VertexHandle::from_index(2)), 5);
    assert_eq!(*c.get(h).unwrap().index(VertexHandle::from_index(0)), 0);
    c.copy_all(VertexHandle::from_index(2), VertexHandle::from_index(1));
    assert_eq!(*c.get(h).unwrap().index(VertexHandle::from_index(1)), 5);
    assert_eq!(*c.get(b).unwrap().index(VertexHandle::from_index(1)), true);
    c.resize_all(1);
    assert_eq!(c.get(b).unwrap().len(), 1);
    c.clear_all();
    assert_eq!(c.get(h).unwrap().len(), 0);
    c.clear();
    assert!(c.get(h).is_none());
    assert_eq!(c.len(), 2);
}

#[test]
fn mesh_items_and_props() {
    let mut mesh = Mesh::new();
    let v0 = mesh.vertices_mut().append();
    let v1 = mesh.vertices_mut().append();
    assert_eq!((v0.index(), v1.index()), (0, 1));
    assert_eq!(mesh.vertices().len(), 2);
    assert!(mesh.vertices().is_valid(v1));
    assert!(!mesh.vertices().is_valid(VertexHandle::from_index(2)));
    assert_eq!(mesh.vertices().get(v0).unwrap().hh.index(), INVALID_INDEX);

    let h: PropHandle<VertexHandle, i32> = mesh.v_props_mut().add(Some(String::from("t")));
    assert_eq!(mesh.v_props().get(h).unwrap().len(), 2);
    mesh.v_props_mut().get_mut(h).unwrap().index_set(v0, -3);
    mesh.v_props_mut().copy(h, v0, v1);
    assert_eq!(*mesh.v_props().get(h).unwrap().index(v1), -3);

    // Appending an item extends every property list.
    let v2 = mesh.vertices_mut().append();
    assert_eq!(mesh.v_props().get(h).unwrap().len(), 3);
    assert_eq!(*mesh.v_props().get(h).unwrap().index(v2), 0);

    let mut removed = h;
    mesh.v_props_mut().remove(&mut removed);
    assert!(!removed.is_valid());
    assert!(mesh.v_props().get(h).is_none());

    let e = mesh.edges_mut().append();
    assert_eq!(e.index(), 0);
    assert_eq!(mesh.halfedges().len(), 2);
    let f = mesh.faces_mut().append();
    assert_eq!(f.index(), 0);

    let m: PropHandle<_, u64> = mesh.m_props_mut().add(Some(String::from("id")));
    assert_eq!(mesh.m_props().get(m).unwrap().len(), 1);
    assert_eq!(
        mesh.prop_stats().debug_string(),
        "vertex props:\n[deleted]\nhalfedge props:\nedge props:\nface props:\nmesh props:\n  id\n\n"
    );
}

#[test]
fn request_release_status() {
    let mut mesh = Mesh::debug_triangles(2);
    assert!(mesh.get_face_status().is_none());
    mesh.request_face_status();
    mesh.request_face_status();
    assert_eq!(mesh.get_face_status().unwrap().len(), 2);
    assert_eq!(mesh.get_face_status().unwrap().name(), "f:status");
    let named: PropHandle<FaceHandle, Status> = mesh.f_props().handle("f:status");
    assert!(named.is_valid());
    mesh.release_face_status();
    assert!(mesh.get_face_status().is_some());
    mesh.release_face_status();
    assert!(mesh.get_face_status().is_none());
    mesh.release_face_status();
    assert!(mesh.get_face_status().is_none());

    mesh.request_halfedge_status();
    assert_eq!(mesh.get_halfedge_status().unwrap().len(), 12);
    mesh.request_edge_status();
    assert_eq!(mesh.get_edge_status().unwrap().name(), "e:status");
}

#[test]
fn debug_triangles_links() {
    let mesh = Mesh::debug_triangles(2);
    assert_eq!(mesh.vertices().len(), 6);
    assert_eq!(mesh.edges().len(), 6);
    assert_eq!(mesh.halfedges().len(), 12);
    assert_eq!(mesh.faces().len(), 2);
    let halfedges = mesh.halfedges();
    for k in 0..12 {
        let he = halfedges.get(HalfedgeHandle::from_index(k)).unwrap();
        let next = halfedges.get(he.hnext).unwrap();
        let prev = halfedges.get(he.hprev).unwrap();
        assert_eq!(next.hprev.index(), k);
        assert_eq!(prev.hnext.index(), k);
        assert!(next.fh == he.fh);
        if k % 2 == 0 {
            assert_eq!(he.fh.index(), k / 6);
        } else {
            assert!(!he.fh.is_valid());
        }
        // A halfedge starts where its twin ends.
        let twin = halfedges.get(HalfedgeHandle::from_index(k ^ 1)).unwrap();
        assert!(prev.vh == twin.vh);
    }
    for v in 0..6 {
        // Each vertex's halfedge leaves it.
        let hh = mesh.vertices().get(VertexHandle::from_index(v)).unwrap().hh;
        let twin = halfedges.get(HalfedgeHandle::from_index(hh.index() ^ 1)).unwrap();
        assert_eq!(twin.vh.index(), v);
    }
    assert_eq!(mesh.faces().get(FaceHandle::from_index(1)).unwrap().hh.index(), 6);
    assert_eq!(mesh.vertices().get(VertexHandle::from_index(4)).unwrap().hh.index(), 9);
    let edge = mesh.edges().get(EdgeHandle::from_index(5)).unwrap();
    assert_eq!(edge.0[1].vh.index(), 4);
}

#[test]
fn iterator_skips_deleted_from_start() {
    let mut mesh = Mesh::debug_triangles(1);
    mesh.request_vertex_status();
    let status = mesh.get_vertex_status_mut().unwrap();
    status.index_set(VertexHandle::from_index(0), Status::from_bits_truncate(DELETED | SELECTED));
    let mut it = FwdIter::new(&mesh, VertexHandle::from_index(0), true);
    assert_eq!(it.next().map(|h| h.index()), Some(1));
    assert_eq!(it.next().map(|h| h.index()), Some(2));
    assert_eq!(it.next(), None);
    assert_eq!(it.next(), None);
    let mut all = FwdIter::new(&mesh, VertexHandle::from_index(0), false);
    assert_eq!(all.next().map(|h| h.index()), Some(0));
}

#[test]
fn property_traits_on_lists() {
    let mut p: PropertyList<u16, VertexHandle> = ConstructableProperty::new(String::from("w"), 2);
    assert_eq!(Property::len(&p), 2);
    assert_eq!(Property::name(&p), "w");
    IndexSet::index_set(&mut p, VertexHandle::from_index(1), 9);
    Property::swap(&mut p, VertexHandle::from_index(0), VertexHandle::from_index(1));
    assert_eq!(*p.index(VertexHandle::from_index(0)), 9);
    ResizeableProperty::push(&mut p);
    assert_eq!(Property::len(&p), 3);
    assert_eq!(Property::size_of_len(&p, 5), 10);
    let mut buf = Vec::new();
    assert_eq!(Property::store(&p, &mut buf, Endian::Little), Ok(6));
    assert_eq!(buf, vec![9, 0, 0, 0, 0, 0]);
    Property::set_persistent(&mut p, true);
    assert!(Property::persistent(&p));
    assert_eq!(p.debug_string(), "  w, persistent\n");
    ResizeableProperty::clear(&mut p);
    assert!(Property::is_empty(&p));
}

#[test]
fn mesh_clone_copies_everything() {
    let mut mesh = Mesh::debug_triangles(2);
    mesh.request_vertex_status();
    let h: PropHandle<VertexHandle, String> = mesh.v_props_mut().add(Some(String::from("label")));
    mesh.v_props_mut().get_mut(h).unwrap().index_set(VertexHandle::from_index(3), String::from("x"));
    let copy = mesh.clone();
    assert_eq!(copy.vertices().len(), 6);
    assert_eq!(copy.faces().len(), 2);
    assert_eq!(copy.v_props().get(h).unwrap().index(VertexHandle::from_index(3)), "x");
    assert_eq!(copy.get_vertex_status().unwrap().len(), 6);
    assert_eq!(copy.prop_stats().debug_string(), mesh.prop_stats().debug_string());
    // The copy is independent of the mesh it was cloned from.
    mesh.release_vertex_status();
    assert!(mesh.get_vertex_status().is_none());
    assert!(copy.get_vertex_status().is_some());
}

#[test]
fn props_add_refuses_reserved_names() {
    let mut mesh = Mesh::debug_triangles(1);
    let long: String = std::iter::repeat('x').take(257).collect();
    let at_limit: String = std::iter::repeat('x').take(256).collect();
    for name in ["v:pos", "h:x", "e:", "f:normal", "m:id", "<>", "<internal>", long.as_str()] {
        let h: PropHandle<VertexHandle, u32> = mesh.v_props_mut().add(Some(String::from(name)));
        assert!(!h.is_valid(), "{}", name);
    }
    assert_eq!(mesh.v_props().debug_string(), "");
    for name in ["x:pos", "v", "vx:y", "<open", "<a\nb>", at_limit.as_str()] {
        let h: PropHandle<VertexHandle, u32> = mesh.v_props_mut().add(Some(String::from(name)));
        assert!(h.is_valid(), "{}", name);
        assert_eq!(mesh.v_props().get(h).unwrap().len(), 3);
    }
    let unnamed: PropHandle<VertexHandle, u8> = mesh.v_props_mut().add(None);
    assert!(unnamed.is_valid());
}

#[test]
fn writes_through_views_read_back() {
    let mut mesh = Mesh::new();
    let h: PropHandle<VertexHandle, u16> = mesh.v_props_mut().add(Some(String::from("w")));
    assert_eq!(mesh.v_props().get(h).unwrap().len(), 0);
    let v = mesh.vertices_mut().append();
    assert_eq!(mesh.vertices().len(), 1);
    assert_eq!(mesh.v_props().get(h).unwrap().len(), 1);
    assert_eq!(*mesh.v_props().get(h).unwrap().index(v), 0);
    let m: PropHandle<_, u32> = mesh.m_props_mut().add(Some(String::from("count")));
    assert_eq!(mesh.m_props().len(), 1);
    assert_eq!(mesh.m_props().get(m).unwrap().len(), 1);
    let wrong: PropHandle<VertexHandle, u32> = PropHandle::from_index(h.index());
    assert!(mesh.v_props().get(wrong).is_none());
}

#[test]
fn swap_all_twice_restores() {
    let mut c = PropertyContainer::<VertexHandle>::new();
    let h: PropHandle<VertexHandle, u32> = c.add(Some(String::from("a")), 3);
    let s: PropHandle<VertexHandle, String> = c.add(Some(String::from("s")), 3);
    c.get_mut(h).unwrap().index_set(VertexHandle::from_index(0), 7);
    c.get_mut(s).unwrap().index_set(VertexHandle::from_index(2), String::from("z"));
    let before = c.clone();
    c.swap_all(VertexHandle::from_index(0), VertexHandle::from_index(2));
    assert_eq!(*c.get(h).unwrap().index(VertexHandle::from_index(2)), 7);
    assert_eq!(c.get(s).unwrap().index(VertexHandle::from_index(0)), "z");
    c.swap_all(VertexHandle::from_index(0), VertexHandle::from_index(2));
    for k in 0..3 {
        let i = VertexHandle::from_index(k);
        assert_eq!(c.get(h).unwrap().index(i), before.get(h).unwrap().index(i));
        assert_eq!(c.get(s).unwrap().index(i), before.get(s).unwrap().index(i));
    }
}

#[test]
fn resize_all_on_empty_container_accepts_any_length() {
    let mut c = PropertyContainer::<VertexHandle>::default();
    c.resize_all(INVALID_INDEX);
    assert_eq!(c.len(), 0);
}

#[test]
fn bitvec_iter_yields_len_bits() {
    let mut b = BitVec::new();
    for k in 0..13 {
        b.push(k % 3 == 0);
    }
    let mut it = b.iter();
    let mut count = 0;
    while let Some(bit) = it.next() {
        assert_eq!(bit, count % 3 == 0);
        count += 1;
    }
    assert_eq!(count, b.len());
    assert_eq!(it.next(), None);
}
