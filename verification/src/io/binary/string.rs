//! `Binary` implementation for `String`: a 16-bit length in bytes followed by the UTF-8 bytes.

use vstd::prelude::*;
use vstd::utf8::{decode_utf8, encode_utf8, valid_utf8};
use crate::io::binary::bytes::{decode2, encode2, get_u16, lemma_decode2_prefix, lemma_roundtrip2, put_u16};
use crate::io::binary::traits::{Binary, Endian, UNKNOWN_SIZE};
use crate::io::result::{Error, IoError, Result};
use crate::util::text::string_from_utf8;

verus! {

broadcast use vstd::utf8::group_utf8_lib;

/// Largest number of bytes a stored string may have.
pub const MAX_STRING_BYTES: usize = 0xffff;

impl Binary for String {
    type Model = Seq<char>;

    open spec fn model(&self) -> Seq<char> {
        self@
    }

    open spec fn spec_streamable() -> bool {
        true
    }

    open spec fn spec_size_of_type() -> usize {
        UNKNOWN_SIZE
    }

    open spec fn spec_size_of_value(m: Seq<char>) -> nat {
        encode_utf8(m).len() + 2
    }

    open spec fn spec_store(m: Seq<char>, endian: Endian) -> (Seq<u8>, Option<Error>) {
        let b = encode_utf8(m);
        if b.len() > MAX_STRING_BYTES {
            (Seq::empty(), Some(Error::StringExceeds64k))
        } else {
            (encode2(b.len() as u16, endian) + b, None)
        }
    }

    /// Reads the 16-bit length and then at most that many bytes. Where the input ends before
    /// them, the bytes that are there are read, and the result is the number of bytes actually
    /// read (the length prefix included), as `restore` promises, not the length that the prefix
    /// announced.
    open spec fn spec_restore(m: Seq<char>, input: Seq<u8>, endian: Endian) -> (Seq<char>, Result<usize>) {
        if input.len() < 2 {
            (m, Err(Error::UnexpectedEOF))
        } else {
            let len = decode2(input, endian) as int;
            let avail = input.len() - 2;
            let n = if len <= avail { len } else { avail };
            let body = input.subrange(2, 2 + n);
            if valid_utf8(body) {
                (decode_utf8(body), Ok((n + 2) as usize))
            } else {
                (Seq::empty(), Err(Error::Io(IoError::InvalidUtf8)))
            }
        }
    }

    open spec fn restorable(prev: Seq<char>, m: Seq<char>) -> bool {
        true
    }

    proof fn lemma_store_restore(m: Seq<char>, prev: Seq<char>, rest: Seq<u8>, endian: Endian) {
        let b = encode_utf8(m);
        let head = encode2(b.len() as u16, endian);
        let input = head + b + rest;
        lemma_roundtrip2(b.len() as u16, seq![], endian);
        assert(input =~= head + (b + rest));
        lemma_decode2_prefix(head, b + rest, endian);
        assert(input.subrange(2, 2 + b.len() as int) =~= b);
    }

    fn is_streamable() -> (b: bool) {
        true
    }

    fn size_of_type() -> (n: usize) {
        UNKNOWN_SIZE
    }

    fn size_of_value(&self) -> (n: usize) {
        self.as_str().len() + 2
    }

    fn store(&self, out: &mut Vec<u8>, endian: Endian) -> (r: Result<usize>) {
        let bytes = self.as_str().as_bytes();
        let len = bytes.len();
        if len > MAX_STRING_BYTES {
            return Err(Error::StringExceeds64k);
        }
        put_u16(out, len as u16, endian);
        proof { lemma_roundtrip2(len as u16, seq![], endian); }
        let ghost start = out@;
        let mut i: usize = 0;
        while i < len
            invariant
                i <= len,
                len == bytes@.len(),
                out@ == start + bytes@.take(i as int),
            decreases len - i,
        {
            out.push(bytes[i]);
            i = i + 1;
            assert(out@ =~= start + bytes@.take(i as int));
        }
        assert(bytes@.take(len as int) =~= bytes@);
        Ok(len + 2)
    }

    fn restore(&mut self, input: &[u8], endian: Endian) -> (r: Result<usize>) {
        if input.len() < 2 {
            return Err(Error::UnexpectedEOF);
        }
        let len = get_u16(input, endian) as usize;
        let avail = input.len() - 2;
        // Reads at most `len` bytes, fewer where the input ends earlier.
        let n = if len <= avail { len } else { avail };
        let body = vstd::slice::slice_subrange(input, 2, 2 + n);
        let v = vstd::slice::slice_to_vec(body);
        match string_from_utf8(v) {
            Some(s) => {
                proof { vstd::utf8::encode_utf8_decode_utf8(s@); }
                *self = s;
                Ok(n + 2)
            },
            None => {
                *self = String::new();
                Err(Error::Io(IoError::InvalidUtf8))
            },
        }
    }
}

/// Storing the string restored from `bytes` writes the bytes that were read, whenever the
/// length prefix does not promise more bytes than `bytes` holds.
pub proof fn lemma_string_restore_store(bytes: Seq<u8>, prev: Seq<char>, endian: Endian)
    requires
        bytes.len() >= 2,
        decode2(bytes, endian) + 2 <= bytes.len(),
    ensures
        <String as Binary>::spec_restore(prev, bytes, endian).1 matches Ok(n)
            ==> <String as Binary>::spec_store(<String as Binary>::spec_restore(prev, bytes, endian).0, endian)
                == (bytes.take(n as int), None::<Error>),
{
    let len = decode2(bytes, endian) as int;
    let body = bytes.subrange(2, 2 + len);
    if valid_utf8(body) {
        vstd::utf8::decode_utf8_encode_utf8(body);
        lemma_roundtrip2(0, bytes, endian);
        assert(encode2(len as u16, endian) + body =~= bytes.take(2 + len));
    }
}

}
