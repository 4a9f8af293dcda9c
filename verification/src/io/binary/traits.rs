//! The `Binary` trait for values that can be stored as bytes and restored from bytes.

use vstd::prelude::*;
use crate::io::result::{Error, Result};

verus! {

/// Byte order used when storing and restoring multi-byte values.
#[derive(Clone, Copy, PartialEq, Eq, Structural, Debug)]
pub enum Endian {
    /// Most significant byte first.
    Big,
    /// Least significant byte first.
    Little,
}

/// Size reported for types or values whose binary size cannot be determined.
pub const UNKNOWN_SIZE: usize = usize::MAX;

/// What storing a value does: the bytes it writes and, if it fails, the error.
pub open spec fn store_result(outcome: (Seq<u8>, Option<Error>)) -> Result<usize> {
    match outcome.1 {
        None => Ok(outcome.0.len() as usize),
        Some(e) => Err(e),
    }
}

/// A trait for describing whether an object can be serialized to bytes and how.
///
/// `store` appends the bytes of a value to a buffer; `restore` reads a value from the start of a
/// byte slice. Both return the number of bytes written or read.
pub trait Binary: Sized {
    /// The mathematical value that stored bytes describe.
    type Model;

    /// The model of `self`.
    spec fn model(&self) -> Self::Model;

    /// Whether values of the type are streamable.
    spec fn spec_streamable() -> bool;

    /// The size of all values of the type, or `UNKNOWN_SIZE`.
    spec fn spec_size_of_type() -> usize;

    /// The size of a value with model `m` in bytes.
    spec fn spec_size_of_value(m: Self::Model) -> nat;

    /// The bytes that storing a value with model `m` writes and the error, if storing fails.
    spec fn spec_store(m: Self::Model, endian: Endian) -> (Seq<u8>, Option<Error>);

    /// The model that restoring a value with model `m` from `input` leaves, and the result.
    spec fn spec_restore(m: Self::Model, input: Seq<u8>, endian: Endian) -> (Self::Model, Result<usize>);

    /// A value with model `m` can be restored in place of one with model `prev`: where restoring
    /// reads as many items or bits as the value in place holds, `prev` has as many as `m`, and
    /// where restoring keeps only some bits, `m` has no others.
    spec fn restorable(prev: Self::Model, m: Self::Model) -> bool;

    /// Restore undoes store: restoring in place of a value of the same shape, from the bytes that
    /// storing a value writes followed by any other bytes, gives the value back and reads exactly
    /// the bytes that were stored.
    proof fn lemma_store_restore(m: Self::Model, prev: Self::Model, rest: Seq<u8>, endian: Endian)
        requires
            Self::spec_store(m, endian).1 is None,
            Self::restorable(prev, m),
            Self::spec_store(m, endian).0.len() + rest.len() <= usize::MAX,
        ensures
            Self::spec_restore(prev, Self::spec_store(m, endian).0 + rest, endian)
                == (m, Ok::<usize, Error>(Self::spec_store(m, endian).0.len() as usize)),
    ;

    /// Whether values of type T are streamable.
    fn is_streamable() -> (b: bool)
        ensures
            b == Self::spec_streamable(),
    ;

    /// Size of all values of type T, if determinable.
    fn size_of_type() -> (n: usize)
        ensures
            n == Self::spec_size_of_type(),
    ;

    /// Size of a specific value of type T.
    fn size_of_value(&self) -> (n: usize)
        requires
            Self::spec_size_of_value(self.model()) <= usize::MAX,
        ensures
            n == Self::spec_size_of_value(self.model()),
    ;

    /// Appends `self` to `out` in the byte order `endian`. Returns the number of bytes written on
    /// success.
    fn store(&self, out: &mut Vec<u8>, endian: Endian) -> (r: Result<usize>)
        ensures
            final(out)@ == old(out)@ + Self::spec_store(self.model(), endian).0,
            r == store_result(Self::spec_store(self.model(), endian)),
    ;

    /// Loads `self` from the start of `input` in the byte order `endian`. Returns the number of
    /// bytes read on success.
    fn restore(&mut self, input: &[u8], endian: Endian) -> (r: Result<usize>)
        ensures
            (final(self).model(), r) == Self::spec_restore(old(self).model(), input@, endian),
            r matches Ok(n) ==> n <= input@.len(),
    ;
}

}
