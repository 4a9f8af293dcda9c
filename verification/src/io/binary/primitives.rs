//! `Binary` implementations for the primitive integer types.
//!
//! Floating-point values are stored through their IEEE-754 bit patterns (`u32` for `f32`, `u64`
//! for `f64`), which the caller converts.

use vstd::prelude::*;
use crate::io::binary::bytes::{
    decode2, decode4, decode8, encode2, encode4, encode8, get_u16, get_u32, get_u64, put_u16,
    put_u32, put_u64, lemma_roundtrip2, lemma_roundtrip4, lemma_roundtrip8, lemma_decode2_prefix, lemma_decode4_prefix,
    lemma_decode8_prefix,
};
use crate::io::binary::traits::{Binary, Endian};
use crate::io::result::{Error, Result};

verus! {

impl Binary for u8 {
    type Model = u8;

    open spec fn model(&self) -> u8 {
        *self
    }

    open spec fn spec_streamable() -> bool {
        true
    }

    open spec fn spec_size_of_type() -> usize {
        1
    }

    open spec fn spec_size_of_value(m: u8) -> nat {
        1
    }

    open spec fn spec_store(m: u8, endian: Endian) -> (Seq<u8>, Option<Error>) {
        (seq![m], None)
    }

    open spec fn spec_restore(m: u8, input: Seq<u8>, endian: Endian) -> (u8, Result<usize>) {
        if input.len() < 1 {
            (m, Err(Error::UnexpectedEOF))
        } else {
            (input[0], Ok(1))
        }
    }

    open spec fn restorable(prev: u8, m: u8) -> bool {
        true
    }

    proof fn lemma_store_restore(m: u8, prev: u8, rest: Seq<u8>, endian: Endian) {
        assert((seq![m] + rest)[0] == m);
    }

    fn is_streamable() -> (b: bool) {
        true
    }

    fn size_of_type() -> (n: usize) {
        1
    }

    fn size_of_value(&self) -> (n: usize) {
        1
    }

    fn store(&self, out: &mut Vec<u8>, endian: Endian) -> (r: Result<usize>) {
        out.push(*self);
        Ok(1)
    }

    fn restore(&mut self, input: &[u8], endian: Endian) -> (r: Result<usize>) {
        if input.len() < 1 {
            return Err(Error::UnexpectedEOF);
        }
        *self = input[0];
        Ok(1)
    }
}

impl Binary for i8 {
    type Model = i8;

    open spec fn model(&self) -> i8 {
        *self
    }

    open spec fn spec_streamable() -> bool {
        true
    }

    open spec fn spec_size_of_type() -> usize {
        1
    }

    open spec fn spec_size_of_value(m: i8) -> nat {
        1
    }

    open spec fn spec_store(m: i8, endian: Endian) -> (Seq<u8>, Option<Error>) {
        (seq![m as u8], None)
    }

    open spec fn spec_restore(m: i8, input: Seq<u8>, endian: Endian) -> (i8, Result<usize>) {
        if input.len() < 1 {
            (m, Err(Error::UnexpectedEOF))
        } else {
            (input[0] as i8, Ok(1))
        }
    }

    open spec fn restorable(prev: i8, m: i8) -> bool {
        true
    }

    proof fn lemma_store_restore(m: i8, prev: i8, rest: Seq<u8>, endian: Endian) {
        let b = m as u8;
        assert((b as i8) == m) by (bit_vector) requires b == m as u8;
        assert((seq![b] + rest)[0] == b);
    }

    fn is_streamable() -> (b: bool) {
        true
    }

    fn size_of_type() -> (n: usize) {
        1
    }

    fn size_of_value(&self) -> (n: usize) {
        1
    }

    fn store(&self, out: &mut Vec<u8>, endian: Endian) -> (r: Result<usize>) {
        out.push(*self as u8);
        Ok(1)
    }

    fn restore(&mut self, input: &[u8], endian: Endian) -> (r: Result<usize>) {
        if input.len() < 1 {
            return Err(Error::UnexpectedEOF);
        }
        *self = input[0] as i8;
        Ok(1)
    }
}

impl Binary for u16 {
    type Model = u16;

    open spec fn model(&self) -> u16 {
        *self
    }

    open spec fn spec_streamable() -> bool {
        true
    }

    open spec fn spec_size_of_type() -> usize {
        2
    }

    open spec fn spec_size_of_value(m: u16) -> nat {
        2
    }

    open spec fn spec_store(m: u16, endian: Endian) -> (Seq<u8>, Option<Error>) {
        (encode2(m, endian), None)
    }

    open spec fn spec_restore(m: u16, input: Seq<u8>, endian: Endian) -> (u16, Result<usize>) {
        if input.len() < 2 {
            (m, Err(Error::UnexpectedEOF))
        } else {
            (decode2(input, endian), Ok(2))
        }
    }

    open spec fn restorable(prev: u16, m: u16) -> bool {
        true
    }

    proof fn lemma_store_restore(m: u16, prev: u16, rest: Seq<u8>, endian: Endian) {
        lemma_roundtrip2(m, seq![], endian);
        lemma_decode2_prefix(encode2(m, endian), rest, endian);
    }

    fn is_streamable() -> (b: bool) {
        true
    }

    fn size_of_type() -> (n: usize) {
        2
    }

    fn size_of_value(&self) -> (n: usize) {
        2
    }

    fn store(&self, out: &mut Vec<u8>, endian: Endian) -> (r: Result<usize>) {
        put_u16(out, *self, endian);
        proof { lemma_roundtrip2(*self, seq![], endian); }
        Ok(2)
    }

    fn restore(&mut self, input: &[u8], endian: Endian) -> (r: Result<usize>) {
        if input.len() < 2 {
            return Err(Error::UnexpectedEOF);
        }
        *self = get_u16(input, endian);
        Ok(2)
    }
}

impl Binary for i16 {
    type Model = i16;

    open spec fn model(&self) -> i16 {
        *self
    }

    open spec fn spec_streamable() -> bool {
        true
    }

    open spec fn spec_size_of_type() -> usize {
        2
    }

    open spec fn spec_size_of_value(m: i16) -> nat {
        2
    }

    open spec fn spec_store(m: i16, endian: Endian) -> (Seq<u8>, Option<Error>) {
        (encode2(m as u16, endian), None)
    }

    open spec fn spec_restore(m: i16, input: Seq<u8>, endian: Endian) -> (i16, Result<usize>) {
        if input.len() < 2 {
            (m, Err(Error::UnexpectedEOF))
        } else {
            (decode2(input, endian) as i16, Ok(2))
        }
    }

    open spec fn restorable(prev: i16, m: i16) -> bool {
        true
    }

    proof fn lemma_store_restore(m: i16, prev: i16, rest: Seq<u8>, endian: Endian) {
        let w = m as u16;
        lemma_roundtrip2(w, seq![], endian);
        lemma_decode2_prefix(encode2(w, endian), rest, endian);
        assert((w as i16) == m) by (bit_vector) requires w == m as u16;
    }

    fn is_streamable() -> (b: bool) {
        true
    }

    fn size_of_type() -> (n: usize) {
        2
    }

    fn size_of_value(&self) -> (n: usize) {
        2
    }

    fn store(&self, out: &mut Vec<u8>, endian: Endian) -> (r: Result<usize>) {
        put_u16(out, *self as u16, endian);
        proof { lemma_roundtrip2(*self as u16, seq![], endian); }
        Ok(2)
    }

    fn restore(&mut self, input: &[u8], endian: Endian) -> (r: Result<usize>) {
        if input.len() < 2 {
            return Err(Error::UnexpectedEOF);
        }
        *self = get_u16(input, endian) as i16;
        Ok(2)
    }
}

impl Binary for u32 {
    type Model = u32;

    open spec fn model(&self) -> u32 {
        *self
    }

    open spec fn spec_streamable() -> bool {
        true
    }

    open spec fn spec_size_of_type() -> usize {
        4
    }

    open spec fn spec_size_of_value(m: u32) -> nat {
        4
    }

    open spec fn spec_store(m: u32, endian: Endian) -> (Seq<u8>, Option<Error>) {
        (encode4(m, endian), None)
    }

    open spec fn spec_restore(m: u32, input: Seq<u8>, endian: Endian) -> (u32, Result<usize>) {
        if input.len() < 4 {
            (m, Err(Error::UnexpectedEOF))
        } else {
            (decode4(input, endian), Ok(4))
        }
    }

    open spec fn restorable(prev: u32, m: u32) -> bool {
        true
    }

    proof fn lemma_store_restore(m: u32, prev: u32, rest: Seq<u8>, endian: Endian) {
        lemma_roundtrip4(m, seq![], endian);
        lemma_decode4_prefix(encode4(m, endian), rest, endian);
    }

    fn is_streamable() -> (b: bool) {
        true
    }

    fn size_of_type() -> (n: usize) {
        4
    }

    fn size_of_value(&self) -> (n: usize) {
        4
    }

    fn store(&self, out: &mut Vec<u8>, endian: Endian) -> (r: Result<usize>) {
        put_u32(out, *self, endian);
        proof { lemma_roundtrip4(*self, seq![], endian); }
        Ok(4)
    }

    fn restore(&mut self, input: &[u8], endian: Endian) -> (r: Result<usize>) {
        if input.len() < 4 {
            return Err(Error::UnexpectedEOF);
        }
        *self = get_u32(input, endian);
        Ok(4)
    }
}

impl Binary for i32 {
    type Model = i32;

    open spec fn model(&self) -> i32 {
        *self
    }

    open spec fn spec_streamable() -> bool {
        true
    }

    open spec fn spec_size_of_type() -> usize {
        4
    }

    open spec fn spec_size_of_value(m: i32) -> nat {
        4
    }

    open spec fn spec_store(m: i32, endian: Endian) -> (Seq<u8>, Option<Error>) {
        (encode4(m as u32, endian), None)
    }

    open spec fn spec_restore(m: i32, input: Seq<u8>, endian: Endian) -> (i32, Result<usize>) {
        if input.len() < 4 {
            (m, Err(Error::UnexpectedEOF))
        } else {
            (decode4(input, endian) as i32, Ok(4))
        }
    }

    open spec fn restorable(prev: i32, m: i32) -> bool {
        true
    }

    proof fn lemma_store_restore(m: i32, prev: i32, rest: Seq<u8>, endian: Endian) {
        let w = m as u32;
        lemma_roundtrip4(w, seq![], endian);
        lemma_decode4_prefix(encode4(w, endian), rest, endian);
        assert((w as i32) == m) by (bit_vector) requires w == m as u32;
    }

    fn is_streamable() -> (b: bool) {
        true
    }

    fn size_of_type() -> (n: usize) {
        4
    }

    fn size_of_value(&self) -> (n: usize) {
        4
    }

    fn store(&self, out: &mut Vec<u8>, endian: Endian) -> (r: Result<usize>) {
        put_u32(out, *self as u32, endian);
        proof { lemma_roundtrip4(*self as u32, seq![], endian); }
        Ok(4)
    }

    fn restore(&mut self, input: &[u8], endian: Endian) -> (r: Result<usize>) {
        if input.len() < 4 {
            return Err(Error::UnexpectedEOF);
        }
        *self = get_u32(input, endian) as i32;
        Ok(4)
    }
}

impl Binary for u64 {
    type Model = u64;

    open spec fn model(&self) -> u64 {
        *self
    }

    open spec fn spec_streamable() -> bool {
        true
    }

    open spec fn spec_size_of_type() -> usize {
        8
    }

    open spec fn spec_size_of_value(m: u64) -> nat {
        8
    }

    open spec fn spec_store(m: u64, endian: Endian) -> (Seq<u8>, Option<Error>) {
        (encode8(m, endian), None)
    }

    open spec fn spec_restore(m: u64, input: Seq<u8>, endian: Endian) -> (u64, Result<usize>) {
        if input.len() < 8 {
            (m, Err(Error::UnexpectedEOF))
        } else {
            (decode8(input, endian), Ok(8))
        }
    }

    open spec fn restorable(prev: u64, m: u64) -> bool {
        true
    }

    proof fn lemma_store_restore(m: u64, prev: u64, rest: Seq<u8>, endian: Endian) {
        lemma_roundtrip8(m, seq![], endian);
        lemma_decode8_prefix(encode8(m, endian), rest, endian);
    }

    fn is_streamable() -> (b: bool) {
        true
    }

    fn size_of_type() -> (n: usize) {
        8
    }

    fn size_of_value(&self) -> (n: usize) {
        8
    }

    fn store(&self, out: &mut Vec<u8>, endian: Endian) -> (r: Result<usize>) {
        put_u64(out, *self, endian);
        proof { lemma_roundtrip8(*self, seq![], endian); }
        Ok(8)
    }

    fn restore(&mut self, input: &[u8], endian: Endian) -> (r: Result<usize>) {
        if input.len() < 8 {
            return Err(Error::UnexpectedEOF);
        }
        *self = get_u64(input, endian);
        Ok(8)
    }
}

impl Binary for i64 {
    type Model = i64;

    open spec fn model(&self) -> i64 {
        *self
    }

    open spec fn spec_streamable() -> bool {
        true
    }

    open spec fn spec_size_of_type() -> usize {
        8
    }

    open spec fn spec_size_of_value(m: i64) -> nat {
        8
    }

    open spec fn spec_store(m: i64, endian: Endian) -> (Seq<u8>, Option<Error>) {
        (encode8(m as u64, endian), None)
    }

    open spec fn spec_restore(m: i64, input: Seq<u8>, endian: Endian) -> (i64, Result<usize>) {
        if input.len() < 8 {
            (m, Err(Error::UnexpectedEOF))
        } else {
            (decode8(input, endian) as i64, Ok(8))
        }
    }

    open spec fn restorable(prev: i64, m: i64) -> bool {
        true
    }

    proof fn lemma_store_restore(m: i64, prev: i64, rest: Seq<u8>, endian: Endian) {
        let w = m as u64;
        lemma_roundtrip8(w, seq![], endian);
        lemma_decode8_prefix(encode8(w, endian), rest, endian);
        assert((w as i64) == m) by (bit_vector) requires w == m as u64;
    }

    fn is_streamable() -> (b: bool) {
        true
    }

    fn size_of_type() -> (n: usize) {
        8
    }

    fn size_of_value(&self) -> (n: usize) {
        8
    }

    fn store(&self, out: &mut Vec<u8>, endian: Endian) -> (r: Result<usize>) {
        put_u64(out, *self as u64, endian);
        proof { lemma_roundtrip8(*self as u64, seq![], endian); }
        Ok(8)
    }

    fn restore(&mut self, input: &[u8], endian: Endian) -> (r: Result<usize>) {
        if input.len() < 8 {
            return Err(Error::UnexpectedEOF);
        }
        *self = get_u64(input, endian) as i64;
        Ok(8)
    }
}

/// Storing the `u8` restored from `bytes` writes the bytes that were read.
pub proof fn lemma_u8_restore_store(bytes: Seq<u8>, prev: u8, endian: Endian)
    ensures
        <u8 as Binary>::spec_restore(prev, bytes, endian).1 matches Ok(n)
            ==> <u8 as Binary>::spec_store(<u8 as Binary>::spec_restore(prev, bytes, endian).0, endian).0 == bytes.take(n as int),
{
    if bytes.len() >= 1 {
        assert(seq![bytes[0]] =~= bytes.take(1));
    }
}

/// Storing the `i8` restored from `bytes` writes the bytes that were read.
pub proof fn lemma_i8_restore_store(bytes: Seq<u8>, prev: i8, endian: Endian)
    ensures
        <i8 as Binary>::spec_restore(prev, bytes, endian).1 matches Ok(n)
            ==> <i8 as Binary>::spec_store(<i8 as Binary>::spec_restore(prev, bytes, endian).0, endian).0 == bytes.take(n as int),
{
    if bytes.len() >= 1 {
        let b = bytes[0];
        assert(((b as i8) as u8) == b) by (bit_vector);
        assert(seq![(bytes[0] as i8) as u8] =~= bytes.take(1));
    }
}

/// Storing the `u16` restored from `bytes` writes the bytes that were read.
pub proof fn lemma_u16_restore_store(bytes: Seq<u8>, prev: u16, endian: Endian)
    ensures
        <u16 as Binary>::spec_restore(prev, bytes, endian).1 matches Ok(n)
            ==> <u16 as Binary>::spec_store(<u16 as Binary>::spec_restore(prev, bytes, endian).0, endian).0 == bytes.take(n as int),
{
    lemma_roundtrip2(0, bytes, endian);
}

/// Storing the `i16` restored from `bytes` writes the bytes that were read.
pub proof fn lemma_i16_restore_store(bytes: Seq<u8>, prev: i16, endian: Endian)
    ensures
        <i16 as Binary>::spec_restore(prev, bytes, endian).1 matches Ok(n)
            ==> <i16 as Binary>::spec_store(<i16 as Binary>::spec_restore(prev, bytes, endian).0, endian).0 == bytes.take(n as int),
{
    lemma_roundtrip2(0, bytes, endian);
    if bytes.len() >= 2 {
        let w = decode2(bytes, endian);
        assert(((w as i16) as u16) == w) by (bit_vector);
    }
}

/// Storing the `u32` restored from `bytes` writes the bytes that were read.
pub proof fn lemma_u32_restore_store(bytes: Seq<u8>, prev: u32, endian: Endian)
    ensures
        <u32 as Binary>::spec_restore(prev, bytes, endian).1 matches Ok(n)
            ==> <u32 as Binary>::spec_store(<u32 as Binary>::spec_restore(prev, bytes, endian).0, endian).0 == bytes.take(n as int),
{
    lemma_roundtrip4(0, bytes, endian);
}

/// Storing the `i32` restored from `bytes` writes the bytes that were read.
pub proof fn lemma_i32_restore_store(bytes: Seq<u8>, prev: i32, endian: Endian)
    ensures
        <i32 as Binary>::spec_restore(prev, bytes, endian).1 matches Ok(n)
            ==> <i32 as Binary>::spec_store(<i32 as Binary>::spec_restore(prev, bytes, endian).0, endian).0 == bytes.take(n as int),
{
    lemma_roundtrip4(0, bytes, endian);
    if bytes.len() >= 4 {
        let w = decode4(bytes, endian);
        assert(((w as i32) as u32) == w) by (bit_vector);
    }
}

/// Storing the `u64` restored from `bytes` writes the bytes that were read.
pub proof fn lemma_u64_restore_store(bytes: Seq<u8>, prev: u64, endian: Endian)
    ensures
        <u64 as Binary>::spec_restore(prev, bytes, endian).1 matches Ok(n)
            ==> <u64 as Binary>::spec_store(<u64 as Binary>::spec_restore(prev, bytes, endian).0, endian).0 == bytes.take(n as int),
{
    lemma_roundtrip8(0, bytes, endian);
}

/// Storing the `i64` restored from `bytes` writes the bytes that were read.
pub proof fn lemma_i64_restore_store(bytes: Seq<u8>, prev: i64, endian: Endian)
    ensures
        <i64 as Binary>::spec_restore(prev, bytes, endian).1 matches Ok(n)
            ==> <i64 as Binary>::spec_store(<i64 as Binary>::spec_restore(prev, bytes, endian).0, endian).0 == bytes.take(n as int),
{
    lemma_roundtrip8(0, bytes, endian);
    if bytes.len() >= 8 {
        let w = decode8(bytes, endian);
        assert(((w as i64) as u64) == w) by (bit_vector);
    }
}

}
