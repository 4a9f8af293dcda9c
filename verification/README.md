# openmesh

A halfedge polygon-mesh data structure with property lists attached to mesh items, and binary
storage of property values, written in Verus.

Layout:

- `src/` — the verified library.
  - `util/` — a packed bit vector, index traits, string helpers.
  - `property/` — handles, typed property lists and the property container that adds, finds
    and removes them.
  - `mesh/` — item handles, connectivity items, the mesh with its per-item property containers
    and reference-counted status properties, and iterators that skip deleted or hidden items.
  - `io/` — options, errors, and the `Binary` trait with its implementations for integers,
    strings, bit vectors, status flags, vectors and arrays. Byte order goes through `byteorder`.
- `tests/` — tests of the library.

Verified callers that write through a mesh's mutable views (`vertices_mut()`, `v_props_mut()`,
...) and then read the mesh again bring `openmesh::mesh::prop::group_views_resolved` into scope
with `broadcast use`.
- `app/` — geometry on floating-point vectors (`nalgebra`, `num`), `Display` and error traits,
  and stream adapters for `Binary`.
