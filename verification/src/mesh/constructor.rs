//! Mesh constructors.

use vstd::prelude::*;
use crate::mesh::item_handle::{
    EdgeHandle, FaceHandle, HalfedgeHandle, MeshItemHandle, VertexHandle,
};
use crate::mesh::items::{Edge, Face, Halfedge, Vertex};
use crate::mesh::mesh::{is_empty_kind, Mesh};
use crate::property::handle::Handle;
use crate::property::size::{Size, INVALID_INDEX};

verus! {

/// Halfedge `h` belongs to face `fh`, points to vertex `vh`, and is followed by `hnext` and
/// preceded by `hprev`, all given by index.
pub open spec fn links(h: Halfedge, fh: int, vh: int, hnext: int, hprev: int) -> bool {
    &&& h.fh.spec_index() == fh
    &&& h.vh.spec_index() == vh
    &&& h.hnext.spec_index() == hnext
    &&& h.hprev.spec_index() == hprev
}

/// Triangle `i` of a triangle soup: vertices `3i..3i+3`, edges `3i..3i+3` (halfedges
/// `6i..6i+6`) and face `i`. Each edge's first halfedge runs around the face (`2 -> 0 -> 1 -> 2`
/// by local vertex number), and its second one, its twin, runs the other way around the outside,
/// which belongs to no face. A halfedge points to the vertex it ends at; each vertex's halfedge
/// is the outer one leaving it.
///
/// ```text
/// halfedge   from -> to   face
///    0         2 -> 0      i
///    1         0 -> 2      none
///    2         0 -> 1      i
///    3         1 -> 0      none
///    4         1 -> 2      i
///    5         2 -> 1      none
/// ```
pub open spec fn is_soup_triangle(vs: Seq<Vertex>, es: Seq<Edge>, fs: Seq<Face>, i: int) -> bool {
    let v = 3 * i;
    let h = 6 * i;
    let inval = INVALID_INDEX as int;
    &&& vs[v].hh.spec_index() == h + 1
    &&& vs[v + 1].hh.spec_index() == h + 3
    &&& vs[v + 2].hh.spec_index() == h + 5
    &&& fs[i].hh.spec_index() == h
    &&& links(es[v].0[0], i, v, h + 2, h + 4)
    &&& links(es[v].0[1], inval, v + 2, h + 5, h + 3)
    &&& links(es[v + 1].0[0], i, v + 1, h + 4, h)
    &&& links(es[v + 1].0[1], inval, v, h + 1, h + 5)
    &&& links(es[v + 2].0[0], i, v + 2, h, h + 2)
    &&& links(es[v + 2].0[1], inval, v + 1, h + 3, h + 1)
}

/// `vs`, `es`, `fs` hold `n` separate triangles.
pub open spec fn is_triangle_soup(vs: Seq<Vertex>, es: Seq<Edge>, fs: Seq<Face>, n: int) -> bool {
    &&& vs.len() == 3 * n
    &&& es.len() == 3 * n
    &&& fs.len() == n
    &&& forall|i: int| 0 <= i < n ==> #[trigger] is_soup_triangle(vs, es, fs, i)
}

impl Mesh {
    /// Creates a new empty mesh.
    pub fn new() -> (m: Mesh)
        ensures
            is_empty_kind::<VertexHandle>(&m),
            is_empty_kind::<HalfedgeHandle>(&m),
            is_empty_kind::<EdgeHandle>(&m),
            is_empty_kind::<FaceHandle>(&m),
            m.spec_m_props().slots().len() == 0,
    {
        Mesh::default()
    }

    /// Returns a mesh of `num_tri` separate triangles, with no properties, for testing.
    pub fn debug_triangles(num_tri: usize) -> (m: Mesh)
        requires
            6 * num_tri <= u32::MAX,
        ensures
            is_triangle_soup(
                VertexHandle::spec_items(&m),
                EdgeHandle::spec_items(&m),
                FaceHandle::spec_items(&m),
                num_tri as int,
            ),
            HalfedgeHandle::spec_items(&m) == EdgeHandle::spec_items(&m),
            VertexHandle::spec_props(&m).slots().len() == 0,
            HalfedgeHandle::spec_props(&m).slots().len() == 0,
            EdgeHandle::spec_props(&m).slots().len() == 0,
            FaceHandle::spec_props(&m).slots().len() == 0,
            m.spec_m_props().slots().len() == 0,
            VertexHandle::spec_status_refs(&m) == 0,
            HalfedgeHandle::spec_status_refs(&m) == 0,
            EdgeHandle::spec_status_refs(&m) == 0,
            FaceHandle::spec_status_refs(&m) == 0,
            VertexHandle::spec_status(&m).spec_index() == INVALID_INDEX,
            HalfedgeHandle::spec_status(&m).spec_index() == INVALID_INDEX,
            EdgeHandle::spec_status(&m).spec_index() == INVALID_INDEX,
            FaceHandle::spec_status(&m).spec_index() == INVALID_INDEX,
    {
        let inval = FaceHandle::new();
        let mut vertices: Vec<Vertex> = Vec::with_capacity(num_tri * 3);
        let mut faces: Vec<Face> = Vec::with_capacity(num_tri);
        let mut edges: Vec<Edge> = Vec::with_capacity(num_tri * 3);
        let n = num_tri as Size;
        let mut i: Size = 0;
        while i < n
            invariant
                n == num_tri,
                6 * n <= u32::MAX,
                i <= n,
                inval.spec_index() == INVALID_INDEX,
                is_triangle_soup(vertices@, edges@, faces@, i as int),
            decreases n - i,
        {
            let vi = i * 3;
            let hi = i * 6;
            let fh = FaceHandle::from_index(i);
            let ghost old_vs = vertices@;
            let ghost old_es = edges@;
            let ghost old_fs = faces@;
            vertices.push(Vertex { hh: HalfedgeHandle::from_index(hi + 1) });
            vertices.push(Vertex { hh: HalfedgeHandle::from_index(hi + 3) });
            vertices.push(Vertex { hh: HalfedgeHandle::from_index(hi + 5) });
            faces.push(Face { hh: HalfedgeHandle::from_index(hi) });
            edges.push(
                Edge([
                    Halfedge {
                        fh,
                        vh: VertexHandle::from_index(vi),
                        hnext: HalfedgeHandle::from_index(hi + 2),
                        hprev: HalfedgeHandle::from_index(hi + 4),
                    },
                    Halfedge {
                        fh: inval,
                        vh: VertexHandle::from_index(vi + 2),
                        hnext: HalfedgeHandle::from_index(hi + 5),
                        hprev: HalfedgeHandle::from_index(hi + 3),
                    },
                ]),
            );
            edges.push(
                Edge([
                    Halfedge {
                        fh,
                        vh: VertexHandle::from_index(vi + 1),
                        hnext: HalfedgeHandle::from_index(hi + 4),
                        hprev: HalfedgeHandle::from_index(hi),
                    },
                    Halfedge {
                        fh: inval,
                        vh: VertexHandle::from_index(vi),
                        hnext: HalfedgeHandle::from_index(hi + 1),
                        hprev: HalfedgeHandle::from_index(hi + 5),
                    },
                ]),
            );
            edges.push(
                Edge([
                    Halfedge {
                        fh,
                        vh: VertexHandle::from_index(vi + 2),
                        hnext: HalfedgeHandle::from_index(hi),
                        hprev: HalfedgeHandle::from_index(hi + 2),
                    },
                    Halfedge {
                        fh: inval,
                        vh: VertexHandle::from_index(vi + 1),
                        hnext: HalfedgeHandle::from_index(hi + 3),
                        hprev: HalfedgeHandle::from_index(hi + 1),
                    },
                ]),
            );
            proof {
                let ii = i as int;
                assert(is_soup_triangle(vertices@, edges@, faces@, ii));
                assert forall|j: int| 0 <= j < ii + 1 implies #[trigger] is_soup_triangle(vertices@, edges@, faces@, j) by {
                    if j < ii {
                        assert(is_soup_triangle(old_vs, old_es, old_fs, j));
                    }
                }
            }
            i = i + 1;
        }
        Mesh::from_parts(vertices, edges, faces)
    }
}


/// The halfedges of the stored edges `es`, in handle order.
pub open spec fn halfedges_of(es: Seq<Edge>) -> Seq<Halfedge> {
    HalfedgeHandle::spec_view(es)
}

/// The other halfedge of the edge that halfedge `k` belongs to.
pub open spec fn twin(k: int) -> int {
    if k % 2 == 0 { k + 1 } else { k - 1 }
}

/// Halfedge `k` of the `6 * n` halfedges of `es` is linked consistently: its next and previous
/// halfedges exist, link back to it, and its next one is on the same face; it starts where its
/// twin ends, which is where its previous halfedge ends; and a halfedge running around a
/// triangle (an even one) is on the face of that triangle, while its twin is on none.
pub open spec fn is_linked_halfedge(es: Seq<Edge>, n: int, k: int) -> bool {
    let hs = halfedges_of(es);
    let next = hs[k].hnext.spec_index() as int;
    let prev = hs[k].hprev.spec_index() as int;
    &&& 0 <= next < 6 * n
    &&& 0 <= prev < 6 * n
    &&& hs[next].hprev.spec_index() == k
    &&& hs[prev].hnext.spec_index() == k
    &&& hs[next].fh.spec_index() == hs[k].fh.spec_index()
    &&& hs[prev].vh.spec_index() == hs[twin(k)].vh.spec_index()
    &&& k % 2 == 0 ==> hs[k].fh.spec_index() == k / 6
    &&& k % 2 == 1 ==> hs[k].fh.spec_index() == INVALID_INDEX
}

/// Vertex `v` of `vs` has an outgoing halfedge among the `6 * n` halfedges of `es`: one whose
/// twin ends at `v`.
pub open spec fn has_outgoing_halfedge(vs: Seq<Vertex>, es: Seq<Edge>, n: int, v: int) -> bool {
    let hs = halfedges_of(es);
    let h = vs[v].hh.spec_index() as int;
    &&& 0 <= h < 6 * n
    &&& hs[twin(h)].vh.spec_index() == v
}

/// In a triangle soup, following a halfedge's next link and then the previous link (or the other
/// way round) comes back to it, a halfedge and its next one belong to the same face, which for
/// the halfedges around triangle `i` is face `i`, a halfedge starts where its twin ends, and
/// each vertex's halfedge leaves that vertex.
pub proof fn lemma_soup_linked(vs: Seq<Vertex>, es: Seq<Edge>, fs: Seq<Face>, n: int)
    requires
        is_triangle_soup(vs, es, fs, n),
    ensures
        forall|k: int| 0 <= k < 6 * n ==> #[trigger] is_linked_halfedge(es, n, k),
        forall|v: int| 0 <= v < 3 * n ==> #[trigger] has_outgoing_halfedge(vs, es, n, v),
{
    let hs = halfedges_of(es);
    assert forall|v: int| 0 <= v < 3 * n implies #[trigger] has_outgoing_halfedge(vs, es, n, v) by {
        let i = v / 3;
        let r = v % 3;
        assert(0 <= i < n);
        assert(is_soup_triangle(vs, es, fs, i));
        assert(v == 3 * i + r);
        if r == 0 {
            assert(hs[6 * i] == es[3 * i].0[0]);
        } else if r == 1 {
            assert(hs[6 * i + 2] == es[3 * i + 1].0[0]);
        } else {
            assert(hs[6 * i + 4] == es[3 * i + 2].0[0]);
        }
    }
    assert forall|k: int| 0 <= k < 6 * n implies #[trigger] is_linked_halfedge(es, n, k) by {
        let i = k / 6;
        let r = k % 6;
        assert(0 <= i < n);
        assert(is_soup_triangle(vs, es, fs, i));
        assert(k == 6 * i + r);
        assert(hs[k] == es[k / 2].0[k % 2]);
        if r == 0 {
            assert(k / 2 == 3 * i && k % 2 == 0);
            assert(hs[k] == es[3 * i].0[0]);
            assert((k + 2) / 2 == 3 * i + 1 && (k + 2) % 2 == 0);
            assert(hs[k + 2] == es[3 * i + 1].0[0]);
            assert(hs[k + 4] == es[3 * i + 2].0[0]);
            assert(hs[k].hnext.spec_index() == k + 2);
            assert(hs[k].hprev.spec_index() == k + 4);
            assert(hs[k + 2].hprev.spec_index() == k);
            assert(hs[k + 4].hnext.spec_index() == k);
            assert(hs[k].fh.spec_index() == k / 6);
        } else if r == 1 {
            assert(k / 2 == 3 * i && k % 2 == 1);
            assert(hs[k + 4] == es[3 * i + 2].0[1]);
            assert(hs[k + 2] == es[3 * i + 1].0[1]);
        } else if r == 2 {
            assert(k / 2 == 3 * i + 1 && k % 2 == 0);
            assert(hs[k + 2] == es[3 * i + 2].0[0]);
            assert(hs[k - 2] == es[3 * i].0[0]);
        } else if r == 3 {
            assert(k / 2 == 3 * i + 1 && k % 2 == 1);
            assert(hs[k - 2] == es[3 * i].0[1]);
            assert(hs[k + 2] == es[3 * i + 2].0[1]);
        } else if r == 4 {
            assert(k / 2 == 3 * i + 2 && k % 2 == 0);
            assert(hs[k - 4] == es[3 * i].0[0]);
            assert(hs[k - 2] == es[3 * i + 1].0[0]);
        } else {
            assert(k / 2 == 3 * i + 2 && k % 2 == 1);
            assert(hs[k - 2] == es[3 * i + 1].0[1]);
            assert(hs[k - 4] == es[3 * i].0[1]);
        }
    }
}

}
