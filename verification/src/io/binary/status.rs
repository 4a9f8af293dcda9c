//! `Binary` implementation for mesh item status flags: the flag bits as a 32-bit integer.

use vstd::prelude::*;
use crate::io::binary::bytes::{decode4, encode4, get_u32, lemma_decode4_prefix, lemma_roundtrip4, put_u32};
use crate::io::binary::traits::{Binary, Endian};
use crate::io::result::{Error, Result};
use crate::mesh::status::{Status, ALL_FLAGS};

verus! {

impl Binary for Status {
    type Model = Status;

    open spec fn model(&self) -> Status {
        *self
    }

    open spec fn spec_streamable() -> bool {
        true
    }

    open spec fn spec_size_of_type() -> usize {
        4
    }

    open spec fn spec_size_of_value(m: Status) -> nat {
        4
    }

    open spec fn spec_store(m: Status, endian: Endian) -> (Seq<u8>, Option<Error>) {
        (encode4(m.spec_bits(), endian), None)
    }

    /// Bits that are not status flags are dropped.
    open spec fn spec_restore(m: Status, input: Seq<u8>, endian: Endian) -> (Status, Result<usize>) {
        if input.len() < 4 {
            (m, Err(Error::UnexpectedEOF))
        } else {
            (Status::from_bits_spec(decode4(input, endian)), Ok(4))
        }
    }

    /// Only a status whose bits are all flags comes back whole.
    open spec fn restorable(prev: Status, m: Status) -> bool {
        m.spec_bits() & ALL_FLAGS == m.spec_bits()
    }

    proof fn lemma_store_restore(m: Status, prev: Status, rest: Seq<u8>, endian: Endian) {
        lemma_roundtrip4(m.spec_bits(), seq![], endian);
        lemma_decode4_prefix(encode4(m.spec_bits(), endian), rest, endian);
        m.lemma_from_own_bits();
    }

    fn is_streamable() -> (b: bool) {
        true
    }

    fn size_of_type() -> (n: usize) {
        4
    }

    fn size_of_value(&self) -> (n: usize) {
        4
    }

    fn store(&self, out: &mut Vec<u8>, endian: Endian) -> (r: Result<usize>) {
        let bits = self.bits();
        put_u32(out, bits, endian);
        proof { lemma_roundtrip4(bits, seq![], endian); }
        Ok(4)
    }

    fn restore(&mut self, input: &[u8], endian: Endian) -> (r: Result<usize>) {
        if input.len() < 4 {
            return Err(Error::UnexpectedEOF);
        }
        let bits = get_u32(input, endian);
        *self = Status::from_bits_truncate(bits);
        Ok(4)
    }
}

}
