//! Property lists attached to mesh items, their handles, and the types they can hold.

pub mod container;
pub mod handle;
pub mod list;
pub mod property;
pub mod size;
pub mod storage;
pub mod value;
