//! `Binary` implementation for `BitVec`: its bytes as they are, without a length.

use vstd::prelude::*;
use crate::io::binary::traits::{Binary, Endian, UNKNOWN_SIZE};
use crate::io::result::{Error, Result};
use crate::util::bitvec::{bit_at, bit_of_bytes, bits_of, bytes_for, bytes_in_bits, lemma_packs_unique, lemma_packs_witness, packs, BitVec};

verus! {

/// The canonical bytes of `bits` (see `packs`).
pub open spec fn packed(bits: Seq<bool>) -> Seq<u8> {
    choose|b: Seq<u8>| packs(b, bits)
}

impl Binary for BitVec {
    type Model = Seq<bool>;

    open spec fn model(&self) -> Seq<bool> {
        self@
    }

    open spec fn spec_streamable() -> bool {
        true
    }

    open spec fn spec_size_of_type() -> usize {
        UNKNOWN_SIZE
    }

    open spec fn spec_size_of_value(m: Seq<bool>) -> nat {
        bytes_for(m.len())
    }

    open spec fn spec_store(m: Seq<bool>, endian: Endian) -> (Seq<u8>, Option<Error>) {
        (packed(m), None)
    }

    /// Reads as many bytes as the current bits occupy; the length stays the same.
    open spec fn spec_restore(m: Seq<bool>, input: Seq<u8>, endian: Endian) -> (Seq<bool>, Result<usize>) {
        if input.len() < bytes_for(m.len()) {
            (m, Err(Error::UnexpectedEOF))
        } else {
            (bits_of(m.len(), input), Ok(bytes_for(m.len()) as usize))
        }
    }

    open spec fn restorable(prev: Seq<bool>, m: Seq<bool>) -> bool {
        prev.len() == m.len()
    }

    proof fn lemma_store_restore(m: Seq<bool>, prev: Seq<bool>, rest: Seq<u8>, endian: Endian) {
        let w = lemma_packs_witness(m);
        let b = packed(m);
        assert(packs(b, m));
        assert forall|i: int| 0 <= i < m.len() implies #[trigger] bit_at(b + rest, i) == bit_at(b, i) by {
            assert(i / 8 < b.len());
        }
        assert(bits_of(m.len(), b + rest) =~= m);
    }

    fn is_streamable() -> (b: bool) {
        true
    }

    fn size_of_type() -> (n: usize) {
        UNKNOWN_SIZE
    }

    fn size_of_value(&self) -> (n: usize) {
        self.as_bytes().len()
    }

    fn store(&self, out: &mut Vec<u8>, endian: Endian) -> (r: Result<usize>) {
        let bytes = self.as_bytes();
        proof {
            let w = lemma_packs_witness(self@);
            lemma_packs_unique(bytes@, packed(self@), self@);
        }
        let n = bytes.len();
        let ghost start = out@;
        let mut i: usize = 0;
        while i < n
            invariant
                i <= n,
                n == bytes@.len(),
                out@ == start + bytes@.take(i as int),
            decreases n - i,
        {
            out.push(bytes[i]);
            i = i + 1;
            assert(out@ =~= start + bytes@.take(i as int));
        }
        assert(bytes@.take(n as int) =~= bytes@);
        Ok(n)
    }

    fn restore(&mut self, input: &[u8], endian: Endian) -> (r: Result<usize>) {
        let n = self.len();
        let nbytes = bytes_in_bits(n);
        if input.len() < nbytes {
            return Err(Error::UnexpectedEOF);
        }
        let mut i: usize = 0;
        while i < n
            invariant
                i <= n,
                n == self@.len(),
                nbytes == bytes_for(n as nat),
                nbytes <= input@.len(),
                forall|j: int| 0 <= j < i ==> #[trigger] self@[j] == bits_of(n as nat, input@)[j],
            decreases n - i,
        {
            let b = bit_of_bytes(input, i);
            self.set(i, b);
            i = i + 1;
        }
        assert(self@ =~= bits_of(n as nat, input@));
        Ok(nbytes)
    }
}

}
