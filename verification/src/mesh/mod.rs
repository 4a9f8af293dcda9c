//! 2-manifold surface mesh represented as a halfedge data structure.

pub mod item_handle;
pub mod status;

pub mod items;
pub mod rc;

pub mod mesh;
pub mod prop;
pub mod constructor;
pub mod iter;
