use openmesh::mesh::item_handle::VertexHandle;
use openmesh::mesh::iter::{BwdIter, FwdIter};
use openmesh::mesh::mesh::Mesh;
use openmesh::mesh::status::{Status, DELETED, HIDDEN, SELECTED};
use openmesh::property::handle::Handle;
use openmesh::property::size::{Index, Size};

fn fwd_list(mesh: Mesh, skip: bool) -> Vec<Index> {
    let mut iter = FwdIter::new(&mesh, VertexHandle::from_index(0), skip);
    let mut out = Vec::new();
    while let Some(h) = iter.next() {
        out.push(h.index());
    }
    out
}

fn bwd_list(mesh: Mesh, skip: bool) -> Vec<Index> {
    let end = mesh.vertices().len() as Size - 1;
    let mut iter = BwdIter::new(&mesh, VertexHandle::from_index(end), skip);
    let mut out = Vec::new();
    while let Some(h) = iter.next() {
        out.push(h.index());
    }
    out
}

/// Adds skippable status on all vertices for whom `skip_index_fn` returns true on its handle.
/// It circulates between variations of skippable statuses.
fn with_status(mesh: Mesh, skip_index_fn: fn(&Index) -> bool) -> Mesh {
    let mut mesh = mesh;
    mesh.request_vertex_status();
    let n = mesh.vertices().len();
    let prop = mesh.get_vertex_status_mut().unwrap();
    let mut skip_type = 0;
    for i in 0..n {
        let status = if skip_index_fn(&i) {
            skip_type += 1;
            (match skip_type % 3 {
                0 => DELETED,
                1 => HIDDEN,
                _ => DELETED | HIDDEN,
            }) | SELECTED
        } else {
            SELECTED
        };
        prop.index_set(VertexHandle::from_index(i), Status::from_bits_truncate(status));
    }
    mesh
}

fn is_even(i: &Index) -> bool {
    i % 2 == 0
}

fn is_odd(i: &Index) -> bool {
    i % 2 == 1
}

#[test]
fn empty_mesh() {
    let mesh = Mesh::new();
    assert_eq!(mesh.vertices().len(), 0);
    assert_eq!(mesh.halfedges().len(), 0);
    assert_eq!(mesh.edges().len(), 0);
    assert_eq!(mesh.faces().len(), 0);
}

#[test]
fn test_fwd_iter_no_skip() {
    let all = &(0..15).collect::<Vec<_>>();

    let mesh = with_status(Mesh::debug_triangles(5), is_even);
    assert_eq!(&fwd_list(mesh, false), all);

    let mesh = with_status(Mesh::debug_triangles(5), is_odd);
    assert_eq!(&fwd_list(mesh, false), all);
}

#[test]
fn test_fwd_iter_skip() {
    let mesh = with_status(Mesh::debug_triangles(5), is_even);
    assert_eq!(&fwd_list(mesh, true), &(0..15).filter(is_odd).collect::<Vec<_>>());

    let mesh = with_status(Mesh::debug_triangles(5), is_odd);
    assert_eq!(&fwd_list(mesh, true), &(0..15).filter(is_even).collect::<Vec<_>>());
}

#[test]
fn test_bwd_iter_no_skip() {
    let all_rev = &(0..15).rev().collect::<Vec<_>>();

    let mesh = with_status(Mesh::debug_triangles(5), is_even);
    assert_eq!(&bwd_list(mesh, false), all_rev);

    let mesh = with_status(Mesh::debug_triangles(5), is_odd);
    assert_eq!(&bwd_list(mesh, false), all_rev);
}

#[test]
fn test_bwd_iter_skip() {
    let mesh = with_status(Mesh::debug_triangles(5), is_even);
    assert_eq!(&bwd_list(mesh, true), &(0..15).rev().filter(is_odd).collect::<Vec<_>>());

    let mesh = with_status(Mesh::debug_triangles(5), is_odd);
    assert_eq!(&bwd_list(mesh, true), &(0..15).rev().filter(is_even).collect::<Vec<_>>());
}
