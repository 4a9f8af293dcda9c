//! General-purpose utilities.

pub mod bitvec;
pub mod index;
pub mod text;
