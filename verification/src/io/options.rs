//! I/O options.

use vstd::prelude::*;

verus! {

/// The integer type holding the option bits.
pub type FlagBits = u32;

/// No options.
pub const DEFAULT: FlagBits = 0x0000;
/// Set binary mode for r/w.
pub const BINARY: FlagBits = 0x0001;
/// Assume big endian byte ordering.
pub const MSB: FlagBits = 0x0002;
/// Assume little endian byte ordering.
pub const LSB: FlagBits = 0x0004;
/// Swap byte order in binary mode.
pub const SWAP: FlagBits = 0x0008;
/// Has (r) / store (w) vertex normals.
pub const VERTEX_NORMAL: FlagBits = 0x0010;
/// Has (r) / store (w) vertex colors.
pub const VERTEX_COLOR: FlagBits = 0x0020;
/// Has (r) / store (w) texture coordinates.
pub const VERTEX_TEX_COORD: FlagBits = 0x0040;
/// Has (r) / store (w) edge colors.
pub const EDGE_COLOR: FlagBits = 0x0080;
/// Has (r) / store (w) face normals.
pub const FACE_NORMAL: FlagBits = 0x0100;
/// Has (r) / store (w) face colors.
pub const FACE_COLOR: FlagBits = 0x0200;
/// Has (r) / store (w) face texture coordinates.
pub const FACE_TEX_COORD: FlagBits = 0x0400;
/// Has (r) / store (w) alpha values for colors.
pub const COLOR_ALPHA: FlagBits = 0x0800;
/// Has (r) / store (w) float values for colors (currently only implemented for PLY and OFF files).
pub const COLOR_FLOAT: FlagBits = 0x1000;
/// Has (r) custom properties (currently only implemented in PLY Reader ASCII version).
pub const CUSTOM: FlagBits = 0x2000;
/// All option flags together.
pub const ALL_OPTIONS: FlagBits = 0x3fff;

/// OpenMesh I/O options represented by bit-flags.
#[derive(Clone, Copy, PartialEq, Eq, Structural, Debug, Hash)]
pub struct Options {
    bits: FlagBits,
}

impl Options {
    /// The raw bits of `self`.
    pub closed spec fn spec_bits(self) -> FlagBits {
        self.bits
    }

    /// Whether the bits of `flag` are all set in `self`.
    pub open spec fn has(self, flag: FlagBits) -> bool {
        self.spec_bits() & flag == flag
    }

    /// The options with no flag set.
    pub fn empty() -> (o: Options)
        ensures
            o.spec_bits() == 0,
    {
        Options { bits: 0 }
    }

    /// The options with every flag set.
    pub fn all() -> (o: Options)
        ensures
            o.spec_bits() == ALL_OPTIONS,
    {
        Options { bits: ALL_OPTIONS }
    }

    /// The raw bits.
    pub fn bits(self) -> (b: FlagBits)
        ensures
            b == self.spec_bits(),
    {
        self.bits
    }

    /// The options with the given bits, dropping those that are not option flags.
    pub fn from_bits_truncate(bits: FlagBits) -> (o: Options)
        ensures
            o.spec_bits() == bits & ALL_OPTIONS,
    {
        Options { bits: bits & ALL_OPTIONS }
    }

    /// Whether all flags of `other` are set in `self`.
    pub fn contains(self, other: Options) -> (b: bool)
        ensures
            b == self.has(other.spec_bits()),
    {
        self.bits & other.bits == other.bits
    }

    /// Sets the flags of `other` in `self`.
    pub fn insert(&mut self, other: Options)
        ensures
            final(self).spec_bits() == old(self).spec_bits() | other.spec_bits(),
    {
        self.bits = self.bits | other.bits;
    }

    /// Clears the flags of `other` in `self`.
    pub fn remove(&mut self, other: Options)
        ensures
            final(self).spec_bits() == old(self).spec_bits() & !other.spec_bits(),
    {
        self.bits = self.bits & !other.bits;
    }

    /// Inserts the specified flags into `self` if `b` is true; otherwise removes them.
    pub fn update(&mut self, other: Options, b: bool)
        ensures
            b ==> final(self).spec_bits() == old(self).spec_bits() | other.spec_bits(),
            !b ==> final(self).spec_bits() == old(self).spec_bits() & !other.spec_bits(),
    {
        if b {
            self.insert(other)
        } else {
            self.remove(other)
        }
    }

    /// Whether the single flag `flag` is set.
    fn flag(self, flag: FlagBits) -> (b: bool)
        ensures
            b == self.has(flag),
    {
        self.bits & flag == flag
    }

    /// Whether the BINARY flag is set.
    pub fn is_binary(self) -> (b: bool)
        ensures
            b == self.has(BINARY),
    {
        self.flag(BINARY)
    }

    /// Whether the VERTEX_NORMAL flag is set.
    pub fn vertex_has_normal(self) -> (b: bool)
        ensures
            b == self.has(VERTEX_NORMAL),
    {
        self.flag(VERTEX_NORMAL)
    }

    /// Whether the VERTEX_COLOR flag is set.
    pub fn vertex_has_color(self) -> (b: bool)
        ensures
            b == self.has(VERTEX_COLOR),
    {
        self.flag(VERTEX_COLOR)
    }

    /// Whether the VERTEX_TEX_COORD flag is set.
    pub fn vertex_has_texcoord(self) -> (b: bool)
        ensures
            b == self.has(VERTEX_TEX_COORD),
    {
        self.flag(VERTEX_TEX_COORD)
    }

    /// Whether the EDGE_COLOR flag is set.
    pub fn edge_has_color(self) -> (b: bool)
        ensures
            b == self.has(EDGE_COLOR),
    {
        self.flag(EDGE_COLOR)
    }

    /// Whether the FACE_NORMAL flag is set.
    pub fn face_has_normal(self) -> (b: bool)
        ensures
            b == self.has(FACE_NORMAL),
    {
        self.flag(FACE_NORMAL)
    }

    /// Whether the FACE_COLOR flag is set.
    pub fn face_has_color(self) -> (b: bool)
        ensures
            b == self.has(FACE_COLOR),
    {
        self.flag(FACE_COLOR)
    }

    /// Whether the FACE_TEX_COORD flag is set.
    pub fn face_has_texcoord(self) -> (b: bool)
        ensures
            b == self.has(FACE_TEX_COORD),
    {
        self.flag(FACE_TEX_COORD)
    }

    /// Whether the COLOR_ALPHA flag is set.
    pub fn color_has_alpha(self) -> (b: bool)
        ensures
            b == self.has(COLOR_ALPHA),
    {
        self.flag(COLOR_ALPHA)
    }

    /// Whether the COLOR_FLOAT flag is set.
    pub fn color_is_float(self) -> (b: bool)
        ensures
            b == self.has(COLOR_FLOAT),
    {
        self.flag(COLOR_FLOAT)
    }
}

}
