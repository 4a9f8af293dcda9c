//! A halfedge polygon-mesh data structure in the style of OpenMesh, with property lists attached
//! to mesh items and binary (de)serialization of property values.

pub mod io;
pub mod util;
pub mod mesh;
pub mod property;
