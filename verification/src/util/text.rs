//! Conversions between text and its UTF-8 bytes.

use vstd::prelude::*;
use vstd::utf8::{encode_utf8, is_ascii_chars, valid_utf8};

verus! {

broadcast use vstd::utf8::group_utf8_lib;

/// The bytes of a sequence of ASCII characters, one per character.
pub open spec fn ascii_bytes(cs: Seq<char>) -> Seq<u8> {
    cs.map_values(|c: char| c as u8)
}

/// Makes a `String` from UTF-8 bytes, or `None` where the bytes are not valid UTF-8.
///
/// Calls `String::from_utf8`, which the standard library documents to fail exactly on invalid
/// UTF-8; the contract claims that a returned string encodes to the given bytes and that `None`
/// means the bytes are not valid UTF-8.
#[verifier::external_body]
pub(crate) fn string_from_utf8(bytes: Vec<u8>) -> (r: Option<String>)
    ensures
        match r {
            Some(s) => encode_utf8(s@) == bytes@,
            None => !valid_utf8(bytes@),
        },
{
    String::from_utf8(bytes).ok()
}

/// Makes a `String` of the ASCII characters `cs` from their bytes.
pub(crate) fn string_from_ascii(bytes: Vec<u8>, Ghost(cs): Ghost<Seq<char>>) -> (s: String)
    requires
        is_ascii_chars(cs),
        bytes@ == ascii_bytes(cs),
    ensures
        s@ == cs,
{
    proof {
        vstd::utf8::is_ascii_chars_encode_utf8(cs);
        assert(encode_utf8(cs) =~= bytes@);
        vstd::utf8::encode_utf8_valid_utf8(cs);
    }
    match string_from_utf8(bytes) {
        Some(s) => {
            proof {
                vstd::utf8::encode_utf8_decode_utf8(s@);
                vstd::utf8::encode_utf8_decode_utf8(cs);
            }
            s
        },
        None => String::new(),
    }
}

/// Whether two strings hold the same characters.
pub fn str_eq(a: &str, b: &str) -> (r: bool)
    ensures
        r == (a@ == b@),
{
    let x = a.as_bytes();
    let y = b.as_bytes();
    proof {
        vstd::utf8::encode_utf8_decode_utf8(a@);
        vstd::utf8::encode_utf8_decode_utf8(b@);
    }
    if x.len() != y.len() {
        return false;
    }
    let n = x.len();
    let mut i: usize = 0;
    while i < n
        invariant
            i <= n,
            n == x@.len(),
            n == y@.len(),
            x@ == encode_utf8(a@),
            y@ == encode_utf8(b@),
            forall|k: int| 0 <= k < i ==> x@[k] == y@[k],
        decreases n - i,
    {
        if x[i] != y[i] {
            assert(x@ != y@);
            return false;
        }
        i = i + 1;
    }
    assert(x@ =~= y@);
    true
}


/// Encoding a concatenation encodes its parts one after the other.
pub proof fn lemma_encode_concat(a: Seq<char>, b: Seq<char>)
    ensures
        encode_utf8(a + b) == encode_utf8(a) + encode_utf8(b),
    decreases a.len(),
{
    if a.len() == 0 {
        assert(a + b =~= b);
        assert(encode_utf8(a) =~= Seq::<u8>::empty());
        assert(encode_utf8(a) + encode_utf8(b) =~= encode_utf8(b));
    } else {
        lemma_encode_concat(a.drop_first(), b);
        assert((a + b).drop_first() =~= a.drop_first() + b);
        assert((a + b)[0] == a[0]);
        let head = vstd::utf8::encode_scalar(a[0] as u32);
        assert(encode_utf8(a + b) == head + encode_utf8(a.drop_first() + b));
        assert(encode_utf8(a) == head + encode_utf8(a.drop_first()));
        assert(head + (encode_utf8(a.drop_first()) + encode_utf8(b))
            =~= (head + encode_utf8(a.drop_first())) + encode_utf8(b));
    }
}

/// The string of the characters of `a` followed by those of `b`.
pub fn concat(a: &str, b: &str) -> (s: String)
    ensures
        s@ == a@ + b@,
{
    let x = a.as_bytes();
    let y = b.as_bytes();
    let mut bytes: Vec<u8> = Vec::new();
    let mut i: usize = 0;
    while i < x.len()
        invariant
            i <= x@.len(),
            bytes@ == x@.subrange(0, i as int),
        decreases x@.len() - i,
    {
        bytes.push(x[i]);
        i = i + 1;
        assert(bytes@ =~= x@.subrange(0, i as int));
    }
    let mut j: usize = 0;
    while j < y.len()
        invariant
            j <= y@.len(),
            bytes@ == x@ + y@.subrange(0, j as int),
        decreases y@.len() - j,
    {
        bytes.push(y[j]);
        j = j + 1;
        assert(bytes@ =~= x@ + y@.subrange(0, j as int));
    }
    proof {
        assert(x@.subrange(0, x@.len() as int) =~= x@);
        assert(y@.subrange(0, y@.len() as int) =~= y@);
        lemma_encode_concat(a@, b@);
        vstd::utf8::encode_utf8_valid_utf8(a@ + b@);
        vstd::utf8::encode_utf8_decode_utf8(a@ + b@);
    }
    match string_from_utf8(bytes) {
        Some(s) => {
            proof {
                vstd::utf8::encode_utf8_decode_utf8(s@);
            }
            s
        },
        None => String::new(),
    }
}

}
