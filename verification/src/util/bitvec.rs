//! A bit vector that offers immutable and mutable views of its underlying bytes for I/O.
//!
//! Bits are stored least-significant-bit first within each byte. The bits of the last byte beyond
//! the length of the vector are always 0, so the byte view of a bit vector is determined by its
//! bits alone.

use vstd::prelude::*;
use crate::util::text::{ascii_bytes, string_from_ascii};
use vstd::utf8::is_ascii_chars;

verus! {

/// Whether bit `k` (counting from the least significant bit) of byte `b` is set.
pub open spec fn byte_bit(b: u8, k: u8) -> bool {
    (b >> k) & 1u8 == 1u8
}

/// Bit `i` of the byte sequence `bytes`, least significant bit first within each byte.
pub open spec fn bit_at(bytes: Seq<u8>, i: int) -> bool {
    byte_bit(bytes[i / 8], (i % 8) as u8)
}

/// Number of bytes needed to hold `nbits` bits.
pub open spec fn bytes_for(nbits: nat) -> nat {
    if nbits % 8 == 0 {
        nbits / 8
    } else {
        nbits / 8 + 1
    }
}

/// `bytes` is the canonical byte encoding of `bits`: one bit per position, least significant bit
/// first, and all padding bits of the last byte cleared.
pub open spec fn packs(bytes: Seq<u8>, bits: Seq<bool>) -> bool {
    &&& bytes.len() == bytes_for(bits.len())
    &&& forall|i: int| 0 <= i < bits.len() ==> #[trigger] bit_at(bytes, i) == bits[i]
    &&& forall|i: int| bits.len() <= i < 8 * bytes.len() ==> !#[trigger] bit_at(bytes, i)
}

/// The text of a bit vector: `1` for a set bit and `.` for a clear one, with a space before
/// every bit whose index is a positive multiple of 8.
pub open spec fn display_chars(bits: Seq<bool>) -> Seq<char>
    decreases bits.len(),
{
    if bits.len() == 0 {
        Seq::empty()
    } else {
        let n = (bits.len() - 1) as int;
        let prefix = display_chars(bits.subrange(0, n));
        let sep = if n > 0 && n % 8 == 0 { seq![' '] } else { Seq::empty() };
        prefix + sep + seq![if bits[n] { '1' } else { '.' }]
    }
}

/// Decimal digits of `n`, most significant first.
pub open spec fn decimal_chars(n: nat) -> Seq<char>
    decreases n,
{
    if n < 10 {
        seq![digit_char(n)]
    } else {
        decimal_chars(n / 10) + seq![digit_char(n % 10)]
    }
}

/// The ASCII digit for `d < 10`.
pub open spec fn digit_char(d: nat) -> char {
    if d == 0 { '0' } else if d == 1 { '1' } else if d == 2 { '2' } else if d == 3 { '3' }
    else if d == 4 { '4' } else if d == 5 { '5' } else if d == 6 { '6' } else if d == 7 { '7' }
    else if d == 8 { '8' } else { '9' }
}

/// The debug text of a bit vector: `BitVec{<length>: <display text>}`.
pub open spec fn debug_chars(bits: Seq<bool>) -> Seq<char> {
    seq!['B', 'i', 't', 'V', 'e', 'c', '{'] + decimal_chars(bits.len()) + seq![':', ' ']
        + display_chars(bits) + seq!['}']
}

proof fn lemma_byte_ops(b: u8, k: u8)
    requires
        k < 8,
    ensures
        ((b & (1u8 << k)) != 0u8) == byte_bit(b, k),
        forall|j: u8| j < 8 ==> #[trigger] byte_bit(b | (1u8 << k), j) == (j == k || byte_bit(b, j)),
        forall|j: u8| j < 8 ==> #[trigger] byte_bit(b & !(1u8 << k), j) == (j != k && byte_bit(b, j)),
{
    assert(((b & (1u8 << k)) != 0u8) == ((b >> k) & 1u8 == 1u8)) by (bit_vector)
        requires k < 8u8;
    assert forall|j: u8| j < 8 implies #[trigger] byte_bit(b | (1u8 << k), j) == (j == k || byte_bit(b, j)) by {
        assert((((b | (1u8 << k)) >> j) & 1u8 == 1u8) == (j == k || ((b >> j) & 1u8 == 1u8))) by (bit_vector)
            requires k < 8u8, j < 8u8;
    }
    assert forall|j: u8| j < 8 implies #[trigger] byte_bit(b & !(1u8 << k), j) == (j != k && byte_bit(b, j)) by {
        assert((((b & !(1u8 << k)) >> j) & 1u8 == 1u8) == (j != k && ((b >> j) & 1u8 == 1u8))) by (bit_vector)
            requires k < 8u8, j < 8u8;
    }
}

proof fn lemma_low_mask(b: u8, r: u8)
    requires
        1 <= r < 8,
    ensures
        forall|j: u8| j < 8 ==> #[trigger] byte_bit(b & ((1u8 << r) - 1u8) as u8, j) == (j < r && byte_bit(b, j)),
{
    assert forall|j: u8| j < 8 implies #[trigger] byte_bit(b & ((1u8 << r) - 1u8) as u8, j) == (j < r && byte_bit(b, j)) by {
        assert((((b & ((1u8 << r) - 1u8) as u8) >> j) & 1u8 == 1u8) == (j < r && ((b >> j) & 1u8 == 1u8))) by (bit_vector)
            requires 1u8 <= r < 8u8, j < 8u8;
    }
}

proof fn lemma_constant_bytes()
    ensures
        forall|j: u8| j < 8 ==> #[trigger] byte_bit(0xffu8, j),
        forall|j: u8| j < 8 ==> !#[trigger] byte_bit(0u8, j),
        forall|j: u8| j < 8 ==> #[trigger] byte_bit(1u8, j) == (j == 0),
{
    assert forall|j: u8| j < 8 implies #[trigger] byte_bit(0xffu8, j) by {
        assert((0xffu8 >> j) & 1u8 == 1u8) by (bit_vector) requires j < 8u8;
    }
    assert forall|j: u8| j < 8 implies !#[trigger] byte_bit(0u8, j) by {
        assert((0u8 >> j) & 1u8 == 0u8) by (bit_vector);
    }
    assert forall|j: u8| j < 8 implies #[trigger] byte_bit(1u8, j) == (j == 0) by {
        assert(((1u8 >> j) & 1u8 == 1u8) == (j == 0u8)) by (bit_vector) requires j < 8u8;
    }
}

/// Two bytes with the same eight bits are equal.
proof fn lemma_byte_ext(a: u8, b: u8)
    requires
        forall|j: u8| j < 8 ==> #[trigger] byte_bit(a, j) == byte_bit(b, j),
    ensures
        a == b,
{
    assert(byte_bit(a, 0) == byte_bit(b, 0));
    assert(byte_bit(a, 1) == byte_bit(b, 1));
    assert(byte_bit(a, 2) == byte_bit(b, 2));
    assert(byte_bit(a, 3) == byte_bit(b, 3));
    assert(byte_bit(a, 4) == byte_bit(b, 4));
    assert(byte_bit(a, 5) == byte_bit(b, 5));
    assert(byte_bit(a, 6) == byte_bit(b, 6));
    assert(byte_bit(a, 7) == byte_bit(b, 7));
    assert(a == b) by (bit_vector)
        requires
            ((a >> 0u8) & 1u8 == 1u8) == ((b >> 0u8) & 1u8 == 1u8),
            ((a >> 1u8) & 1u8 == 1u8) == ((b >> 1u8) & 1u8 == 1u8),
            ((a >> 2u8) & 1u8 == 1u8) == ((b >> 2u8) & 1u8 == 1u8),
            ((a >> 3u8) & 1u8 == 1u8) == ((b >> 3u8) & 1u8 == 1u8),
            ((a >> 4u8) & 1u8 == 1u8) == ((b >> 4u8) & 1u8 == 1u8),
            ((a >> 5u8) & 1u8 == 1u8) == ((b >> 5u8) & 1u8 == 1u8),
            ((a >> 6u8) & 1u8 == 1u8) == ((b >> 6u8) & 1u8 == 1u8),
            ((a >> 7u8) & 1u8 == 1u8) == ((b >> 7u8) & 1u8 == 1u8);
}

/// The canonical byte encoding of a bit sequence is unique.
pub proof fn lemma_packs_unique(b1: Seq<u8>, b2: Seq<u8>, bits: Seq<bool>)
    requires
        packs(b1, bits),
        packs(b2, bits),
    ensures
        b1 == b2,
{
    assert forall|i: int| 0 <= i < b1.len() implies b1[i] == b2[i] by {
        assert forall|j: u8| j < 8 implies #[trigger] byte_bit(b1[i], j) == byte_bit(b2[i], j) by {
            let p = 8 * i + j as int;
            assert(p / 8 == i && p % 8 == j as int);
            assert(bit_at(b1, p) == bit_at(b2, p));
        }
        lemma_byte_ext(b1[i], b2[i]);
    }
    assert(b1 =~= b2);
}

/// Every bit sequence has a canonical byte encoding; this returns it.
pub proof fn lemma_packs_witness(bits: Seq<bool>) -> (b: Seq<u8>)
    ensures
        packs(b, bits),
    decreases bits.len(),
{
    if bits.len() == 0 {
        Seq::empty()
    } else {
        let prev = bits.drop_last();
        let b0 = lemma_packs_witness(prev);
        let n = prev.len() as int;
        let x = bits.last();
        if n % 8 == 0 {
            lemma_constant_bytes();
            let nb: u8 = if x { 1u8 } else { 0u8 };
            let b1 = b0.push(nb);
            assert forall|i: int| 0 <= i < bits.len() implies #[trigger] bit_at(b1, i) == bits[i] by {
                if i < n {
                    assert(bit_at(b0, i) == prev[i]);
                    assert(b1[i / 8] == b0[i / 8]);
                } else {
                    assert(i / 8 == n / 8);
                }
            }
            assert forall|i: int| bits.len() <= i < 8 * b1.len() implies !#[trigger] bit_at(b1, i) by {
                assert(i / 8 == n / 8);
            }
            b1
        } else {
            let k = (n % 8) as u8;
            let byte = b0[n / 8];
            lemma_byte_ops(byte, k);
            let nb = if x { byte | (1u8 << k) } else { byte & !(1u8 << k) };
            lemma_update_bit(b0, n, nb, x);
            let b1 = b0.update(n / 8, nb);
            assert forall|i: int| 0 <= i < bits.len() implies #[trigger] bit_at(b1, i) == bits[i] by {
                if i < n {
                    assert(bit_at(b0, i) == prev[i]);
                }
            }
            assert forall|i: int| bits.len() <= i < 8 * b1.len() implies !#[trigger] bit_at(b1, i) by {
                assert(!bit_at(b0, i));
            }
            b1
        }
    }
}

/// The bits described by the first `nbits` bits of `bytes`.
pub open spec fn bits_of(nbits: nat, bytes: Seq<u8>) -> Seq<bool> {
    Seq::new(nbits, |i: int| bit_at(bytes, i))
}

/// `bytes` has the right length to hold `nbits` bits and its padding bits are clear.
pub open spec fn parts_ok(nbits: nat, bytes: Seq<u8>) -> bool {
    &&& bytes.len() == bytes_for(nbits)
    &&& forall|i: int| nbits <= i < 8 * bytes.len() ==> !#[trigger] bit_at(bytes, i)
}

/// Effect on the bit view of replacing byte `i / 8` by `nb`, where `nb` agrees with the old byte
/// on every bit but `i % 8`, which it sets to `value`.
proof fn lemma_update_bit(bytes: Seq<u8>, index: int, nb: u8, value: bool)
    requires
        0 <= index < 8 * bytes.len(),
        byte_bit(nb, (index % 8) as u8) == value,
        forall|j: u8| j < 8 && j != (index % 8) as u8 ==> #[trigger] byte_bit(nb, j) == byte_bit(bytes[index / 8], j),
    ensures
        forall|i: int| 0 <= i < 8 * bytes.len() ==> #[trigger] bit_at(bytes.update(index / 8, nb), i)
            == if i == index { value } else { bit_at(bytes, i) },
{
    let nbytes = bytes.update(index / 8, nb);
    assert forall|i: int| 0 <= i < 8 * bytes.len() implies #[trigger] bit_at(nbytes, i)
        == if i == index { value } else { bit_at(bytes, i) } by {
        if i / 8 == index / 8 {
            if i != index {
                assert(i % 8 != index % 8);
                assert(byte_bit(nb, (i % 8) as u8) == byte_bit(bytes[index / 8], (i % 8) as u8));
            }
        }
    }
}

pub(crate) fn bytes_in_bits(nbits: usize) -> (n: usize)
    ensures
        n == bytes_for(nbits as nat),
{
    nbits / 8 + if nbits % 8 != 0 { 1 } else { 0 }
}

fn byte_from_bool(bit: bool) -> (b: u8)
    ensures
        forall|j: u8| j < 8 ==> #[trigger] byte_bit(b, j) == bit,
{
    proof {
        lemma_constant_bytes();
        assert(!0u8 == 0xffu8) by (bit_vector);
    }
    if bit { !0u8 } else { 0u8 }
}

/// Clears the padding bits of the last byte of `vec`, which holds `nbits` bits.
fn clear_padding(vec: &mut Vec<u8>, nbits: usize)
    requires
        old(vec)@.len() == bytes_for(nbits as nat),
    ensures
        parts_ok(nbits as nat, final(vec)@),
        bits_of(nbits as nat, final(vec)@) == bits_of(nbits as nat, old(vec)@),
{
    if nbits % 8 == 0 {
        assert(parts_ok(nbits as nat, vec@));
        return;
    }
    let len = vec.len();
    let r = (nbits % 8) as u8;
    let byte = vec[len - 1];
    assert(1u8 << r >= 1u8) by (bit_vector) requires r < 8u8;
    let pattern: u8 = (1u8 << r) - 1;
    proof { lemma_low_mask(byte, r); }
    let nb = byte & pattern;
    let ghost old_bytes = vec@;
    vec.set(len - 1, nb);
    proof {
        let nbytes = vec@;
        assert(nbytes == old_bytes.update(len - 1, nb));
        assert forall|i: int| 0 <= i < 8 * len implies #[trigger] bit_at(nbytes, i)
            == (i < nbits && bit_at(old_bytes, i)) by {
            if i / 8 == len - 1 {
                assert(byte_bit(nb, (i % 8) as u8) == ((i % 8) < r && byte_bit(byte, (i % 8) as u8)));
            }
        }
        assert(bits_of(nbits as nat, nbytes) =~= bits_of(nbits as nat, old_bytes));
    }
}

/// A vector of bits stored compactly in bytes.
pub struct BitVec {
    nbits: usize,
    vec: Vec<u8>,
}

impl View for BitVec {
    type V = Seq<bool>;

    closed spec fn view(&self) -> Seq<bool> {
        bits_of(self.nbits as nat, self.vec@)
    }
}

impl BitVec {
    #[verifier::type_invariant]
    spec fn inv(&self) -> bool {
        parts_ok(self.nbits as nat, self.vec@)
    }

    /// Takes the parts out of `self`, leaving an empty bit vector behind.
    fn take_parts(&mut self) -> (r: (usize, Vec<u8>))
        ensures
            parts_ok(r.0 as nat, r.1@),
            bits_of(r.0 as nat, r.1@) == old(self)@,
            r.0 == old(self)@.len(),
            final(self)@ == Seq::<bool>::empty(),
    {
        let mut tmp = BitVec::new();
        core::mem::swap(self, &mut tmp);
        proof { use_type_invariant(&tmp); }
        let BitVec { nbits, vec } = tmp;
        (nbits, vec)
    }

    ////////////////////////////////////////
    // Constructors

    /// Constructs an empty `BitVec`.
    pub fn new() -> (v: BitVec)
        ensures
            v@ == Seq::<bool>::empty(),
    {
        let v = BitVec { vec: Vec::new(), nbits: 0 };
        assert(v@ =~= Seq::<bool>::empty());
        v
    }

    /// Constructs a `BitVec` from bytes: 8 bits per byte, least significant bit first.
    pub fn from_bytes(bytes: &[u8]) -> (v: BitVec)
        requires
            bytes@.len() * 8 <= usize::MAX,
        ensures
            v@.len() == bytes@.len() * 8,
            packs(bytes@, v@),
    {
        let mut vec = vstd::slice::slice_to_vec(bytes);
        let nbits = bytes.len() * 8;
        clear_padding(&mut vec, nbits);
        proof {
            assert(vec@ == bytes@) by {
                assert(parts_ok(nbits as nat, bytes@));
                lemma_packs_unique(vec@, bytes@, bits_of(nbits as nat, vec@));
            }
        }
        BitVec { vec, nbits }
    }

    /// Constructs a `BitVec` of `len` copies of `value`.
    pub fn from_elem(len: usize, value: bool) -> (v: BitVec)
        ensures
            v@ == Seq::new(len as nat, |i: int| value),
    {
        let n = bytes_in_bits(len);
        let byte = byte_from_bool(value);
        let mut vec: Vec<u8> = Vec::new();
        let mut k: usize = 0;
        while k < n
            invariant
                k <= n,
                vec@.len() == k,
                forall|i: int| 0 <= i < k ==> vec@[i] == byte,
            decreases n - k,
        {
            vec.push(byte);
            k = k + 1;
        }
        proof {
            assert forall|i: int| 0 <= i < len implies #[trigger] bit_at(vec@, i) == value by {
                assert(vec@[i / 8] == byte);
            }
        }
        clear_padding(&mut vec, len);
        let v = BitVec { vec, nbits: len };
        assert(v@ =~= Seq::new(len as nat, |i: int| value));
        v
    }

    ////////////////////////////////////////
    // Converters/views

    /// Returns a byte slice view of the data.
    pub fn as_bytes(&self) -> (b: &[u8])
        ensures
            packs(b@, self@),
    {
        proof { use_type_invariant(self); }
        self.vec.as_slice()
    }

    /// Invokes `f` on a mutable byte slice view of the data. After `f` completes, the trailing
    /// unused bits of the last byte are set to 0 again.
    pub fn with_bytes_mut<U, F: FnOnce(&mut [u8]) -> U>(&mut self, f: F) -> (r: U)
        requires
            forall|s: &mut [u8]| f.requires((s,)),
        ensures
            final(self)@.len() == old(self)@.len(),
            exists|s: &mut [u8]| {
                &&& packs(s@, old(self)@)
                &&& f.ensures((s,), r)
                &&& final(s)@.len() == s@.len() ==> final(self)@ == bits_of(old(self)@.len(), final(s)@)
            },
    {
        let (nbits, mut vec) = self.take_parts();
        let nbytes = vec.len();
        let r = f(vec.as_mut_slice());
        // A slice cannot change its length; this keeps the byte count tied to `nbits` for the
        // verifier, which does not know that.
        if vec.len() != nbytes {
            vec.resize(nbytes, 0u8);
        }
        let ghost filled = vec@;
        clear_padding(&mut vec, nbits);
        *self = BitVec { nbits, vec };
        r
    }

    /// Consumes `self` and returns the underlying bytes, `ceil(self.len() / 8)` of them.
    pub fn into_vec(self) -> (v: Vec<u8>)
        ensures
            packs(v@, self@),
    {
        proof { use_type_invariant(&self); }
        let BitVec { nbits, vec } = self;
        vec
    }

    ////////////////////////////////////////
    // Getters/setters

    /// Returns the length of the bit vector.
    pub fn len(&self) -> (n: usize)
        ensures
            n == self@.len(),
    {
        self.nbits
    }

    /// Whether the bit vector holds no bits.
    pub fn is_empty(&self) -> (b: bool)
        ensures
            b == (self@.len() == 0),
    {
        self.nbits == 0
    }

    /// Gets the bit at the given `index`, which must be below the length.
    pub fn get(&self, index: usize) -> (b: bool)
        requires
            index < self@.len(),
        ensures
            b == self@[index as int],
    {
        self.get_unchecked(index)
    }

    /// Sets the bit at the given `index`, which must be below the length.
    pub fn set(&mut self, index: usize, value: bool)
        requires
            index < old(self)@.len(),
        ensures
            final(self)@ == old(self)@.update(index as int, value),
    {
        self.set_unchecked(index, value)
    }

    /// Gets the bit at the given `index`.
    pub fn get_unchecked(&self, index: usize) -> (b: bool)
        requires
            index < self@.len(),
        ensures
            b == self@[index as int],
    {
        proof { use_type_invariant(self); }
        let byte = self.vec[index / 8];
        let k = (index % 8) as u8;
        proof { lemma_byte_ops(byte, k); }
        (byte & (1u8 << k)) != 0u8
    }

    /// Sets the bit at the given `index`.
    pub fn set_unchecked(&mut self, index: usize, value: bool)
        requires
            index < old(self)@.len(),
        ensures
            final(self)@ == old(self)@.update(index as int, value),
    {
        let (nbits, mut vec) = self.take_parts();
        set_bit(&mut vec, index, value);
        proof {
            assert(bits_of(nbits as nat, vec@) =~= old(self)@.update(index as int, value));
        }
        *self = BitVec { nbits, vec };
    }

    ////////////////////////////////////////
    // Adding/removing items

    /// Pushes a bit to the end of the `BitVec`.
    pub fn push(&mut self, value: bool)
        requires
            old(self)@.len() < usize::MAX,
        ensures
            final(self)@ == old(self)@.push(value),
    {
        let (nbits, mut vec) = self.take_parts();
        if nbits % 8 == 0 {
            let ghost old_bytes = vec@;
            proof { lemma_constant_bytes(); }
            vec.push(if value { 1u8 } else { 0u8 });
            proof {
                assert forall|i: int| 0 <= i < 8 * vec@.len() implies #[trigger] bit_at(vec@, i)
                    == if i < nbits { bit_at(old_bytes, i) } else { i == nbits && value } by {
                    if i >= nbits {
                        assert(i / 8 == nbits / 8);
                    }
                }
            }
        } else {
            let ghost old_bytes = vec@;
            set_bit(&mut vec, nbits, value);
            proof {
                assert forall|i: int| nbits + 1 <= i < 8 * vec@.len() implies !#[trigger] bit_at(vec@, i) by {
                    assert(!bit_at(old_bytes, i));
                }
            }
        }
        let n = nbits + 1;
        proof {
            assert(bits_of(n as nat, vec@) =~= old(self)@.push(value));
        }
        *self = BitVec { nbits: n, vec };
    }

    /// Pops a bit from the end of the `BitVec`.
    pub fn pop(&mut self) -> (r: Option<bool>)
        ensures
            old(self)@.len() == 0 ==> r is None && final(self)@ == old(self)@,
            old(self)@.len() > 0 ==> r == Some(old(self)@.last()) && final(self)@ == old(self)@.drop_last(),
    {
        if self.nbits == 0 {
            return None;
        }
        let (nbits, mut vec) = self.take_parts();
        let n = nbits - 1;
        let value = get_bit(&vec, n);
        let ghost old_bytes = vec@;
        set_bit(&mut vec, n, false);
        // Pop off the last byte if it has no active bits.
        if n % 8 == 0 {
            let ghost before = vec@;
            vec.pop();
            proof {
                assert forall|i: int| 0 <= i < n implies #[trigger] bit_at(vec@, i) == bit_at(before, i) by {
                    assert(vec@[i / 8] == before[i / 8]);
                }
            }
        }
        proof {
            assert forall|i: int| n <= i < 8 * vec@.len() implies !#[trigger] bit_at(vec@, i) by {
                if i > n {
                    assert(!bit_at(old_bytes, i));
                }
            }
            assert(bits_of(n as nat, vec@) =~= old(self)@.drop_last());
        }
        *self = BitVec { nbits: n, vec };
        Some(value)
    }

    /// Clears the `BitVec`, removing all values.
    pub fn clear(&mut self)
        ensures
            final(self)@ == Seq::<bool>::empty(),
    {
        *self = BitVec::new();
    }

    /// Resizes to `n` bits, dropping bits from the end or appending copies of `value`.
    pub fn resize(&mut self, n: usize, value: bool)
        ensures
            final(self)@.len() == n,
            forall|i: int| 0 <= i < n ==> #[trigger] final(self)@[i]
                == if i < old(self)@.len() { old(self)@[i] } else { value },
    {
        if self.len() > n {
            while self.len() > n
                invariant
                    n <= self@.len() <= old(self)@.len(),
                    forall|i: int| 0 <= i < self@.len() ==> #[trigger] self@[i] == old(self)@[i],
                decreases self@.len(),
            {
                self.pop();
            }
        } else {
            while self.len() < n
                invariant
                    old(self)@.len() <= self@.len() <= n,
                    forall|i: int| 0 <= i < self@.len() ==> #[trigger] self@[i]
                        == if i < old(self)@.len() { old(self)@[i] } else { value },
                decreases n - self@.len(),
            {
                self.push(value);
            }
        }
    }

    /// Swaps the bits at indices `i` and `j`.
    pub fn swap(&mut self, i: usize, j: usize)
        requires
            i < old(self)@.len(),
            j < old(self)@.len(),
        ensures
            final(self)@ == old(self)@.update(i as int, old(self)@[j as int]).update(j as int, old(self)@[i as int]),
    {
        let a = self.get(i);
        let b = self.get(j);
        self.set(i, b);
        self.set(j, a);
    }

    /// Reserves capacity for at least `additional` more bits; the bits are unchanged.
    /// Only the allocated capacity grows, which depends on the allocator and is not modelled
    /// here; the contract states that everything else stays as it was.
    pub fn reserve(&mut self, additional: usize)
        ensures
            final(self)@ == old(self)@,
    {
        let (nbits, mut vec) = self.take_parts();
        vec.reserve(additional / 8 + 1);
        *self = BitVec { nbits, vec };
    }
}

proof fn lemma_display_step(bits: Seq<bool>, i: int)
    requires
        0 <= i < bits.len(),
    ensures
        display_chars(bits.take(i + 1)) == display_chars(bits.take(i))
            + (if i > 0 && i % 8 == 0 { seq![' '] } else { Seq::<char>::empty() })
            + seq![if bits[i] { '1' } else { '.' }],
{
    assert(bits.take(i + 1).subrange(0, i) =~= bits.take(i));
}

proof fn lemma_display_ascii(bits: Seq<bool>)
    ensures
        is_ascii_chars(display_chars(bits)),
    decreases bits.len(),
{
    if bits.len() > 0 {
        lemma_display_ascii(bits.subrange(0, bits.len() - 1));
    }
}

proof fn lemma_decimal_ascii(n: nat)
    ensures
        is_ascii_chars(decimal_chars(n)),
    decreases n,
{
    if n >= 10 {
        lemma_decimal_ascii(n / 10);
    }
}

proof fn lemma_ascii_bytes_concat(a: Seq<char>, b: Seq<char>)
    ensures
        ascii_bytes(a + b) == ascii_bytes(a) + ascii_bytes(b),
{
    assert(ascii_bytes(a + b) =~= ascii_bytes(a) + ascii_bytes(b));
}

/// Appends the decimal digits of `n` to `out`.
fn push_decimal(out: &mut Vec<u8>, n: usize)
    ensures
        final(out)@ == old(out)@ + ascii_bytes(decimal_chars(n as nat)),
    decreases n,
{
    if n >= 10 {
        push_decimal(out, n / 10);
    }
    let d = (n % 10) as u8;
    out.push(48u8 + d);
    proof {
        lemma_ascii_bytes_concat(decimal_chars(n as nat / 10), seq![digit_char(n as nat % 10)]);
        assert(ascii_bytes(seq![digit_char(n as nat % 10)]) =~= seq![(48u8 + d) as u8]);
    }
}

/// Appends the display text of `v` to `out`.
fn push_display(out: &mut Vec<u8>, v: &BitVec)
    ensures
        final(out)@ == old(out)@ + ascii_bytes(display_chars(v@)),
{
    let n = v.len();
    let mut i: usize = 0;
    assert(v@.take(0) =~= Seq::<bool>::empty());
    assert(ascii_bytes(display_chars(v@.take(0))) =~= Seq::<u8>::empty());
    assert(out@ =~= old(out)@ + ascii_bytes(display_chars(v@.take(0))));
    while i < n
        invariant
            i <= n,
            n == v@.len(),
            out@ == old(out)@ + ascii_bytes(display_chars(v@.take(i as int))),
        decreases n - i,
    {
        let ghost prev = out@;
        proof { lemma_display_step(v@, i as int); }
        let ghost sep: Seq<char> = if i > 0 && i % 8 == 0 { seq![' '] } else { Seq::<char>::empty() };
        if i > 0 && i % 8 == 0 {
            out.push(32u8);
        }
        let bit = v.get(i);
        out.push(if bit { 49u8 } else { 46u8 });
        proof {
            let c: Seq<char> = seq![if bit { '1' } else { '.' }];
            lemma_ascii_bytes_concat(display_chars(v@.take(i as int)) + sep, c);
            lemma_ascii_bytes_concat(display_chars(v@.take(i as int)), sep);
            assert(ascii_bytes(sep) =~= if i > 0 && i % 8 == 0 { seq![32u8] } else { Seq::<u8>::empty() });
            assert(ascii_bytes(c) =~= seq![if bit { 49u8 } else { 46u8 }]);
            assert(out@ =~= old(out)@ + ascii_bytes(display_chars(v@.take(i + 1))));
        }
        i = i + 1;
    }
    assert(v@.take(n as int) =~= v@);
}

impl BitVec {
    /// The bits as text: `1` for set and `.` for clear bits, a space before each new byte.
    pub fn display_string(&self) -> (s: String)
        ensures
            s@ == display_chars(self@),
    {
        let mut out: Vec<u8> = Vec::new();
        push_display(&mut out, self);
        proof {
            lemma_display_ascii(self@);
            assert(out@ =~= ascii_bytes(display_chars(self@)));
        }
        string_from_ascii(out, Ghost(display_chars(self@)))
    }

    /// The debug text `BitVec{<length>: <display text>}`.
    pub fn debug_string(&self) -> (s: String)
        ensures
            s@ == debug_chars(self@),
    {
        let ghost head: Seq<char> = seq!['B', 'i', 't', 'V', 'e', 'c', '{'];
        let ghost colon: Seq<char> = seq![':', ' '];
        let ghost tail: Seq<char> = seq!['}'];
        let mut out: Vec<u8> = Vec::new();
        out.push(66u8);
        out.push(105u8);
        out.push(116u8);
        out.push(86u8);
        out.push(101u8);
        out.push(99u8);
        out.push(123u8);
        assert(out@ =~= ascii_bytes(head));
        push_decimal(&mut out, self.len());
        out.push(58u8);
        out.push(32u8);
        let ghost mid = out@;
        push_display(&mut out, self);
        out.push(125u8);
        proof {
            let d = decimal_chars(self@.len());
            let t = display_chars(self@);
            lemma_display_ascii(self@);
            lemma_decimal_ascii(self@.len());
            assert(ascii_bytes(colon) =~= seq![58u8, 32u8]);
            assert(ascii_bytes(tail) =~= seq![125u8]);
            lemma_ascii_bytes_concat(head, d);
            lemma_ascii_bytes_concat(head + d, colon);
            lemma_ascii_bytes_concat(head + d + colon, t);
            lemma_ascii_bytes_concat(head + d + colon + t, tail);
            assert(out@ =~= ascii_bytes(debug_chars(self@)));
            assert forall|i: int| 0 <= i < debug_chars(self@).len() implies
                '\0' <= #[trigger] debug_chars(self@)[i] <= '\u{7f}' by {
                let hd = head + d;
                let hdc = hd + colon;
                let hdct = hdc + t;
                if i < head.len() {
                } else if i < hd.len() {
                    assert(debug_chars(self@)[i] == d[i - head.len()]);
                } else if i < hdc.len() {
                } else if i < hdct.len() {
                    assert(debug_chars(self@)[i] == t[i - hdc.len()]);
                } else {
                }
            }
        }
        string_from_ascii(out, Ghost(debug_chars(self@)))
    }

    /// Returns an iterator over the bits, first to last.
    pub fn iter(&self) -> (it: Iter<'_>)
        ensures
            it.bits() == self@,
            it.pos() == 0,
    {
        Iter { vec: self, index: 0 }
    }
}

/// Iterator over the bits of a `BitVec`.
pub struct Iter<'a> {
    vec: &'a BitVec,
    index: usize,
}

impl<'a> Iter<'a> {
    /// The bits being iterated over.
    pub closed spec fn bits(&self) -> Seq<bool> {
        self.vec@
    }

    /// The number of bits already returned.
    pub closed spec fn pos(&self) -> nat {
        self.index as nat
    }

    /// `after` is `self` after one call of `next`, which returned `r`: the next bit, if any is
    /// left, and the position moves past it; else `None`, and the position stays.
    pub open spec fn stepped(&self, after: &Self, r: Option<bool>) -> bool {
        &&& after.bits() == self.bits()
        &&& self.pos() < self.bits().len() ==> r == Some(self.bits()[self.pos() as int])
            && after.pos() == self.pos() + 1
        &&& self.pos() >= self.bits().len() ==> r is None && after.pos() == self.pos()
    }

    /// Returns the next bit, or `None` once all bits have been returned.
    pub fn next(&mut self) -> (r: Option<bool>)
        ensures
            old(self).stepped(final(self), r),
    {
        if self.index >= self.vec.len() {
            None
        } else {
            let val = self.vec.get_unchecked(self.index);
            self.index = self.index + 1;
            Some(val)
        }
    }
}

impl PartialEq for BitVec {
    fn eq(&self, other: &BitVec) -> (r: bool) {
        proof {
            use_type_invariant(self);
            use_type_invariant(other);
        }
        if self.nbits != other.nbits {
            assert(self@.len() != other@.len());
            return false;
        }
        let n = self.vec.len();
        let mut i: usize = 0;
        while i < n
            invariant
                i <= n,
                n == self.vec@.len(),
                n == other.vec@.len(),
                self.nbits == other.nbits,
                parts_ok(self.nbits as nat, self.vec@),
                parts_ok(other.nbits as nat, other.vec@),
                forall|k: int| 0 <= k < i ==> self.vec@[k] == other.vec@[k],
            decreases n - i,
        {
            if self.vec[i] != other.vec[i] {
                proof {
                    let a = self.vec@[i as int];
                    let b = other.vec@[i as int];
                    if forall|j: u8| j < 8 ==> #[trigger] byte_bit(a, j) == byte_bit(b, j) {
                        lemma_byte_ext(a, b);
                    }
                    let j = choose|j: u8| j < 8 && #[trigger] byte_bit(a, j) != byte_bit(b, j);
                    let p = 8 * i + j as int;
                    assert(p / 8 == i && p % 8 == j as int);
                    assert(bit_at(self.vec@, p) != bit_at(other.vec@, p));
                    assert(p < self.nbits) by {
                        if p >= self.nbits {
                            assert(!bit_at(self.vec@, p));
                            assert(!bit_at(other.vec@, p));
                        }
                    }
                    assert(self@[p] != other@[p]);
                }
                return false;
            }
            i = i + 1;
        }
        proof {
            assert(self.vec@ =~= other.vec@);
            assert(self@ =~= other@);
        }
        true
    }
}

impl vstd::std_specs::cmp::PartialEqSpecImpl for BitVec {
    open spec fn obeys_eq_spec() -> bool {
        true
    }

    open spec fn eq_spec(&self, other: &BitVec) -> bool {
        self@ == other@
    }
}

impl Eq for BitVec {
}

impl Clone for BitVec {
    fn clone(&self) -> (r: BitVec)
        ensures
            r@ == self@,
    {
        proof { use_type_invariant(self); }
        let n = self.vec.len();
        let mut vec: Vec<u8> = Vec::new();
        let mut i: usize = 0;
        while i < n
            invariant
                i <= n,
                n == self.vec@.len(),
                vec@ == self.vec@.take(i as int),
            decreases n - i,
        {
            vec.push(self.vec[i]);
            i = i + 1;
            assert(vec@ =~= self.vec@.take(i as int));
        }
        assert(vec@ =~= self.vec@);
        BitVec { nbits: self.nbits, vec }
    }
}

/// Reads bit `index` of `bytes`.
pub(crate) fn bit_of_bytes(bytes: &[u8], index: usize) -> (b: bool)
    requires
        index < 8 * bytes@.len(),
    ensures
        b == bit_at(bytes@, index as int),
{
    let byte = bytes[index / 8];
    let k = (index % 8) as u8;
    proof { lemma_byte_ops(byte, k); }
    (byte & (1u8 << k)) != 0u8
}

/// Reads bit `index` of `vec`.
fn get_bit(vec: &Vec<u8>, index: usize) -> (b: bool)
    requires
        index < 8 * vec@.len(),
    ensures
        b == bit_at(vec@, index as int),
{
    let byte = vec[index / 8];
    let k = (index % 8) as u8;
    proof { lemma_byte_ops(byte, k); }
    (byte & (1u8 << k)) != 0u8
}

/// Sets bit `index` of `vec` to `value`, leaving all other bits alone.
fn set_bit(vec: &mut Vec<u8>, index: usize, value: bool)
    requires
        index < 8 * old(vec)@.len(),
    ensures
        final(vec)@.len() == old(vec)@.len(),
        forall|i: int| 0 <= i < 8 * old(vec)@.len() ==> #[trigger] bit_at(final(vec)@, i)
            == if i == index { value } else { bit_at(old(vec)@, i) },
{
    let byte = vec[index / 8];
    let k = (index % 8) as u8;
    let pattern = 1u8 << k;
    proof { lemma_byte_ops(byte, k); }
    let nb = if value { byte | pattern } else { byte & !pattern };
    proof { lemma_update_bit(vec@, index as int, nb, value); }
    vec.set(index / 8, nb);
}


/// Pushing `value` onto a bit vector and then popping gives back `value` and leaves the bit
/// vector as it was: the same bits, and so the same bytes, which the bits determine. `before`,
/// `pushed` and `popped` are the bits before the push, after it and after the pop, and `r` is
/// what the pop returned.
pub proof fn lemma_push_pop(before: Seq<bool>, pushed: Seq<bool>, popped: Seq<bool>, value: bool, r: Option<bool>)
    requires
        pushed == before.push(value),
        pushed.len() == 0 ==> r is None && popped == pushed,
        pushed.len() > 0 ==> r == Some(pushed.last()) && popped == pushed.drop_last(),
    ensures
        r == Some(value),
        popped == before,
        forall|b1: Seq<u8>, b2: Seq<u8>| packs(b1, before) && packs(b2, popped) ==> b1 == b2,
{
    assert(pushed.drop_last() =~= before);
    assert forall|b1: Seq<u8>, b2: Seq<u8>| packs(b1, before) && packs(b2, popped) implies b1 == b2 by {
        lemma_packs_unique(b1, b2, before);
    }
}


/// Calling `next` again and again on a fresh iterator over a bit vector returns its bits in
/// order, one per call, and then only `None`: as many bits as the bit vector's length. `its`
/// holds the iterator before each call and after the last, and `rs` what each call returned.
pub proof fn lemma_iter_yields_len(its: Seq<Iter>, rs: Seq<Option<bool>>)
    requires
        its.len() == rs.len() + 1,
        its[0].pos() == 0,
        forall|k: int| 0 <= k < rs.len() ==> its[k].stepped(&its[k + 1], #[trigger] rs[k]),
    ensures
        forall|k: int| 0 <= k < rs.len() ==> (#[trigger] rs[k] is Some <==> k < its[0].bits().len()),
        forall|k: int| 0 <= k < rs.len() && k < its[0].bits().len() ==> #[trigger] rs[k] == Some(its[0].bits()[k]),
{
    lemma_iter_positions(its, rs, rs.len() as int);
    assert forall|k: int| 0 <= k < rs.len() implies (#[trigger] rs[k] is Some <==> k < its[0].bits().len()) by {
        assert(its[k].stepped(&its[k + 1], rs[k]));
    }
    assert forall|k: int| 0 <= k < rs.len() && k < its[0].bits().len() implies #[trigger] rs[k] == Some(its[0].bits()[k]) by {
        assert(its[k].stepped(&its[k + 1], rs[k]));
    }
}

/// Before call `k`, the iterator still holds the same bits and stands at position `k`, or at the
/// end once all bits were returned.
proof fn lemma_iter_positions(its: Seq<Iter>, rs: Seq<Option<bool>>, n: int)
    requires
        its.len() == rs.len() + 1,
        its[0].pos() == 0,
        forall|k: int| 0 <= k < rs.len() ==> its[k].stepped(&its[k + 1], #[trigger] rs[k]),
        0 <= n <= rs.len(),
    ensures
        forall|k: int| 0 <= k <= n ==> (#[trigger] its[k]).bits() == its[0].bits()
            && its[k].pos() == (if k <= its[0].bits().len() { k } else { its[0].bits().len() as int }),
    decreases n,
{
    if n > 0 {
        lemma_iter_positions(its, rs, n - 1);
        let r = rs[n - 1];
        assert(its[n - 1].stepped(&its[n - 1 + 1], r));
    }
}

}
