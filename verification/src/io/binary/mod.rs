//! Defines the `Binary` trait which must be defined for all types storable in mesh property lists,
//! and implements it for various common data types.

pub mod bitvec;
pub mod bytes;
pub mod primitives;
pub mod status;
pub mod string;
pub mod vec;
pub mod traits;

pub use self::traits::{store_result, Binary, Endian, UNKNOWN_SIZE};
