//! Types that property lists can hold, and property lists of any of them.

use vstd::prelude::*;
use crate::mesh::status::Status;
use crate::property::handle::{Handle, ItemHandle};
use crate::property::list::{debug_line, PropertyList};
use crate::property::size::{Size, INVALID_INDEX};
use crate::property::storage::StorageFor;

verus! {

/// The kinds of values that property lists hold.
#[derive(Clone, Copy, PartialEq, Eq, Structural, Debug)]
pub enum ValueKind {
    /// Values of type `bool`.
    Bool,
    /// Values of type `u8`.
    U8,
    /// Values of type `i8`.
    I8,
    /// Values of type `u16`.
    U16,
    /// Values of type `i16`.
    I16,
    /// Values of type `u32`.
    U32,
    /// Values of type `i32`.
    I32,
    /// Values of type `u64`.
    U64,
    /// Values of type `i64`.
    I64,
    /// Values of type `String`.
    Str,
    /// Values of type `Status`.
    Status,
}

/// A property list holding values of any of the supported kinds.
pub enum AnyProperty<H> {
    /// A list of `bool` values.
    Bool(PropertyList<bool, H>),
    /// A list of `u8` values.
    U8(PropertyList<u8, H>),
    /// A list of `i8` values.
    I8(PropertyList<i8, H>),
    /// A list of `u16` values.
    U16(PropertyList<u16, H>),
    /// A list of `i16` values.
    I16(PropertyList<i16, H>),
    /// A list of `u32` values.
    U32(PropertyList<u32, H>),
    /// A list of `i32` values.
    I32(PropertyList<i32, H>),
    /// A list of `u64` values.
    U64(PropertyList<u64, H>),
    /// A list of `i64` values.
    I64(PropertyList<i64, H>),
    /// A list of `String` values.
    Str(PropertyList<String, H>),
    /// A list of `Status` values.
    Status(PropertyList<Status, H>),
}

/// Trait for all types of values that are allowed to be stored in a property list.
pub trait Value<H>: StorageFor {
    /// The kind of the type.
    spec fn kind() -> ValueKind;

    /// The list of values of this type in `p`, if `p` holds values of this type.
    spec fn spec_as_list(p: AnyProperty<H>) -> Option<PropertyList<Self, H>>;

    /// `p` holds values of this type exactly when its kind is this type's kind.
    proof fn lemma_as_list(p: AnyProperty<H>)
        ensures
            (Self::spec_as_list(p) is Some) == (p.kind() == Self::kind()),
            Self::spec_as_list(p) matches Some(l) ==> p.spec_len() == l.contents().len()
                && p.spec_name() == l.spec_name() && p.spec_persistent() == l.spec_persistent(),
    ;

    /// Wraps a list of values of this type.
    fn into_any(list: PropertyList<Self, H>) -> (p: AnyProperty<H>)
        ensures
            Self::spec_as_list(p) == Some(list),
            p.kind() == Self::kind(),
    ;

    /// The list of values of this type in `p`, if `p` holds values of this type.
    fn as_list(p: &AnyProperty<H>) -> (r: Option<&PropertyList<Self, H>>)
        ensures
            match r {
                Some(l) => Self::spec_as_list(*p) == Some(*l),
                None => Self::spec_as_list(*p) is None,
            },
    ;

    /// The list of values of this type in `p` for mutation, if `p` holds values of this type.
    fn as_list_mut(p: &mut AnyProperty<H>) -> (r: Option<&mut PropertyList<Self, H>>)
        ensures
            match r {
                Some(l) => Self::spec_as_list(*old(p)) == Some(*l)
                    && Self::spec_as_list(*final(p)) == Some(*final(l)),
                None => Self::spec_as_list(*old(p)) is None && *final(p) == *old(p),
            },
    ;
}

impl<H> Value<H> for bool {
    open spec fn kind() -> ValueKind {
        ValueKind::Bool
    }

    open spec fn spec_as_list(p: AnyProperty<H>) -> Option<PropertyList<bool, H>> {
        match p {
            AnyProperty::Bool(l) => Some(l),
            _ => None,
        }
    }

    proof fn lemma_as_list(p: AnyProperty<H>) {
    }

    fn into_any(list: PropertyList<bool, H>) -> (p: AnyProperty<H>) {
        AnyProperty::Bool(list)
    }

    fn as_list(p: &AnyProperty<H>) -> (r: Option<&PropertyList<bool, H>>) {
        match p {
            AnyProperty::Bool(l) => Some(l),
            _ => None,
        }
    }

    fn as_list_mut(p: &mut AnyProperty<H>) -> (r: Option<&mut PropertyList<bool, H>>) {
        match p {
            AnyProperty::Bool(l) => Some(l),
            _ => None,
        }
    }
}

impl<H> Value<H> for u8 {
    open spec fn kind() -> ValueKind {
        ValueKind::U8
    }

    open spec fn spec_as_list(p: AnyProperty<H>) -> Option<PropertyList<u8, H>> {
        match p {
            AnyProperty::U8(l) => Some(l),
            _ => None,
        }
    }

    proof fn lemma_as_list(p: AnyProperty<H>) {
    }

    fn into_any(list: PropertyList<u8, H>) -> (p: AnyProperty<H>) {
        AnyProperty::U8(list)
    }

    fn as_list(p: &AnyProperty<H>) -> (r: Option<&PropertyList<u8, H>>) {
        match p {
            AnyProperty::U8(l) => Some(l),
            _ => None,
        }
    }

    fn as_list_mut(p: &mut AnyProperty<H>) -> (r: Option<&mut PropertyList<u8, H>>) {
        match p {
            AnyProperty::U8(l) => Some(l),
            _ => None,
        }
    }
}

impl<H> Value<H> for i8 {
    open spec fn kind() -> ValueKind {
        ValueKind::I8
    }

    open spec fn spec_as_list(p: AnyProperty<H>) -> Option<PropertyList<i8, H>> {
        match p {
            AnyProperty::I8(l) => Some(l),
            _ => None,
        }
    }

    proof fn lemma_as_list(p: AnyProperty<H>) {
    }

    fn into_any(list: PropertyList<i8, H>) -> (p: AnyProperty<H>) {
        AnyProperty::I8(list)
    }

    fn as_list(p: &AnyProperty<H>) -> (r: Option<&PropertyList<i8, H>>) {
        match p {
            AnyProperty::I8(l) => Some(l),
            _ => None,
        }
    }

    fn as_list_mut(p: &mut AnyProperty<H>) -> (r: Option<&mut PropertyList<i8, H>>) {
        match p {
            AnyProperty::I8(l) => Some(l),
            _ => None,
        }
    }
}

impl<H> Value<H> for u16 {
    open spec fn kind() -> ValueKind {
        ValueKind::U16
    }

    open spec fn spec_as_list(p: AnyProperty<H>) -> Option<PropertyList<u16, H>> {
        match p {
            AnyProperty::U16(l) => Some(l),
            _ => None,
        }
    }

    proof fn lemma_as_list(p: AnyProperty<H>) {
    }

    fn into_any(list: PropertyList<u16, H>) -> (p: AnyProperty<H>) {
        AnyProperty::U16(list)
    }

    fn as_list(p: &AnyProperty<H>) -> (r: Option<&PropertyList<u16, H>>) {
        match p {
            AnyProperty::U16(l) => Some(l),
            _ => None,
        }
    }

    fn as_list_mut(p: &mut AnyProperty<H>) -> (r: Option<&mut PropertyList<u16, H>>) {
        match p {
            AnyProperty::U16(l) => Some(l),
            _ => None,
        }
    }
}

impl<H> Value<H> for i16 {
    open spec fn kind() -> ValueKind {
        ValueKind::I16
    }

    open spec fn spec_as_list(p: AnyProperty<H>) -> Option<PropertyList<i16, H>> {
        match p {
            AnyProperty::I16(l) => Some(l),
            _ => None,
        }
    }

    proof fn lemma_as_list(p: AnyProperty<H>) {
    }

    fn into_any(list: PropertyList<i16, H>) -> (p: AnyProperty<H>) {
        AnyProperty::I16(list)
    }

    fn as_list(p: &AnyProperty<H>) -> (r: Option<&PropertyList<i16, H>>) {
        match p {
            AnyProperty::I16(l) => Some(l),
            _ => None,
        }
    }

    fn as_list_mut(p: &mut AnyProperty<H>) -> (r: Option<&mut PropertyList<i16, H>>) {
        match p {
            AnyProperty::I16(l) => Some(l),
            _ => None,
        }
    }
}

impl<H> Value<H> for u32 {
    open spec fn kind() -> ValueKind {
        ValueKind::U32
    }

    open spec fn spec_as_list(p: AnyProperty<H>) -> Option<PropertyList<u32, H>> {
        match p {
            AnyProperty::U32(l) => Some(l),
            _ => None,
        }
    }

    proof fn lemma_as_list(p: AnyProperty<H>) {
    }

    fn into_any(list: PropertyList<u32, H>) -> (p: AnyProperty<H>) {
        AnyProperty::U32(list)
    }

    fn as_list(p: &AnyProperty<H>) -> (r: Option<&PropertyList<u32, H>>) {
        match p {
            AnyProperty::U32(l) => Some(l),
            _ => None,
        }
    }

    fn as_list_mut(p: &mut AnyProperty<H>) -> (r: Option<&mut PropertyList<u32, H>>) {
        match p {
            AnyProperty::U32(l) => Some(l),
            _ => None,
        }
    }
}

impl<H> Value<H> for i32 {
    open spec fn kind() -> ValueKind {
        ValueKind::I32
    }

    open spec fn spec_as_list(p: AnyProperty<H>) -> Option<PropertyList<i32, H>> {
        match p {
            AnyProperty::I32(l) => Some(l),
            _ => None,
        }
    }

    proof fn lemma_as_list(p: AnyProperty<H>) {
    }

    fn into_any(list: PropertyList<i32, H>) -> (p: AnyProperty<H>) {
        AnyProperty::I32(list)
    }

    fn as_list(p: &AnyProperty<H>) -> (r: Option<&PropertyList<i32, H>>) {
        match p {
            AnyProperty::I32(l) => Some(l),
            _ => None,
        }
    }

    fn as_list_mut(p: &mut AnyProperty<H>) -> (r: Option<&mut PropertyList<i32, H>>) {
        match p {
            AnyProperty::I32(l) => Some(l),
            _ => None,
        }
    }
}

impl<H> Value<H> for u64 {
    open spec fn kind() -> ValueKind {
        ValueKind::U64
    }

    open spec fn spec_as_list(p: AnyProperty<H>) -> Option<PropertyList<u64, H>> {
        match p {
            AnyProperty::U64(l) => Some(l),
            _ => None,
        }
    }

    proof fn lemma_as_list(p: AnyProperty<H>) {
    }

    fn into_any(list: PropertyList<u64, H>) -> (p: AnyProperty<H>) {
        AnyProperty::U64(list)
    }

    fn as_list(p: &AnyProperty<H>) -> (r: Option<&PropertyList<u64, H>>) {
        match p {
            AnyProperty::U64(l) => Some(l),
            _ => None,
        }
    }

    fn as_list_mut(p: &mut AnyProperty<H>) -> (r: Option<&mut PropertyList<u64, H>>) {
        match p {
            AnyProperty::U64(l) => Some(l),
            _ => None,
        }
    }
}

impl<H> Value<H> for i64 {
    open spec fn kind() -> ValueKind {
        ValueKind::I64
    }

    open spec fn spec_as_list(p: AnyProperty<H>) -> Option<PropertyList<i64, H>> {
        match p {
            AnyProperty::I64(l) => Some(l),
            _ => None,
        }
    }

    proof fn lemma_as_list(p: AnyProperty<H>) {
    }

    fn into_any(list: PropertyList<i64, H>) -> (p: AnyProperty<H>) {
        AnyProperty::I64(list)
    }

    fn as_list(p: &AnyProperty<H>) -> (r: Option<&PropertyList<i64, H>>) {
        match p {
            AnyProperty::I64(l) => Some(l),
            _ => None,
        }
    }

    fn as_list_mut(p: &mut AnyProperty<H>) -> (r: Option<&mut PropertyList<i64, H>>) {
        match p {
            AnyProperty::I64(l) => Some(l),
            _ => None,
        }
    }
}

impl<H> Value<H> for String {
    open spec fn kind() -> ValueKind {
        ValueKind::Str
    }

    open spec fn spec_as_list(p: AnyProperty<H>) -> Option<PropertyList<String, H>> {
        match p {
            AnyProperty::Str(l) => Some(l),
            _ => None,
        }
    }

    proof fn lemma_as_list(p: AnyProperty<H>) {
    }

    fn into_any(list: PropertyList<String, H>) -> (p: AnyProperty<H>) {
        AnyProperty::Str(list)
    }

    fn as_list(p: &AnyProperty<H>) -> (r: Option<&PropertyList<String, H>>) {
        match p {
            AnyProperty::Str(l) => Some(l),
            _ => None,
        }
    }

    fn as_list_mut(p: &mut AnyProperty<H>) -> (r: Option<&mut PropertyList<String, H>>) {
        match p {
            AnyProperty::Str(l) => Some(l),
            _ => None,
        }
    }
}

impl<H> Value<H> for Status {
    open spec fn kind() -> ValueKind {
        ValueKind::Status
    }

    open spec fn spec_as_list(p: AnyProperty<H>) -> Option<PropertyList<Status, H>> {
        match p {
            AnyProperty::Status(l) => Some(l),
            _ => None,
        }
    }

    proof fn lemma_as_list(p: AnyProperty<H>) {
    }

    fn into_any(list: PropertyList<Status, H>) -> (p: AnyProperty<H>) {
        AnyProperty::Status(list)
    }

    fn as_list(p: &AnyProperty<H>) -> (r: Option<&PropertyList<Status, H>>) {
        match p {
            AnyProperty::Status(l) => Some(l),
            _ => None,
        }
    }

    fn as_list_mut(p: &mut AnyProperty<H>) -> (r: Option<&mut PropertyList<Status, H>>) {
        match p {
            AnyProperty::Status(l) => Some(l),
            _ => None,
        }
    }
}

impl<H> AnyProperty<H> {
    /// The kind of values held.
    pub open spec fn kind(&self) -> ValueKind {
        match self {
            AnyProperty::Bool(l) => ValueKind::Bool,
            AnyProperty::U8(l) => ValueKind::U8,
            AnyProperty::I8(l) => ValueKind::I8,
            AnyProperty::U16(l) => ValueKind::U16,
            AnyProperty::I16(l) => ValueKind::I16,
            AnyProperty::U32(l) => ValueKind::U32,
            AnyProperty::I32(l) => ValueKind::I32,
            AnyProperty::U64(l) => ValueKind::U64,
            AnyProperty::I64(l) => ValueKind::I64,
            AnyProperty::Str(l) => ValueKind::Str,
            AnyProperty::Status(l) => ValueKind::Status,
        }
    }

    /// The number of values held.
    pub open spec fn spec_len(&self) -> nat {
        match self {
            AnyProperty::Bool(l) => l.contents().len(),
            AnyProperty::U8(l) => l.contents().len(),
            AnyProperty::I8(l) => l.contents().len(),
            AnyProperty::U16(l) => l.contents().len(),
            AnyProperty::I16(l) => l.contents().len(),
            AnyProperty::U32(l) => l.contents().len(),
            AnyProperty::I32(l) => l.contents().len(),
            AnyProperty::U64(l) => l.contents().len(),
            AnyProperty::I64(l) => l.contents().len(),
            AnyProperty::Str(l) => l.contents().len(),
            AnyProperty::Status(l) => l.contents().len(),
        }
    }

    /// The name of the property.
    pub open spec fn spec_name(&self) -> Seq<char> {
        match self {
            AnyProperty::Bool(l) => l.spec_name(),
            AnyProperty::U8(l) => l.spec_name(),
            AnyProperty::I8(l) => l.spec_name(),
            AnyProperty::U16(l) => l.spec_name(),
            AnyProperty::I16(l) => l.spec_name(),
            AnyProperty::U32(l) => l.spec_name(),
            AnyProperty::I32(l) => l.spec_name(),
            AnyProperty::U64(l) => l.spec_name(),
            AnyProperty::I64(l) => l.spec_name(),
            AnyProperty::Str(l) => l.spec_name(),
            AnyProperty::Status(l) => l.spec_name(),
        }
    }

    /// Whether the property is to be persisted.
    pub open spec fn spec_persistent(&self) -> bool {
        match self {
            AnyProperty::Bool(l) => l.spec_persistent(),
            AnyProperty::U8(l) => l.spec_persistent(),
            AnyProperty::I8(l) => l.spec_persistent(),
            AnyProperty::U16(l) => l.spec_persistent(),
            AnyProperty::I16(l) => l.spec_persistent(),
            AnyProperty::U32(l) => l.spec_persistent(),
            AnyProperty::I32(l) => l.spec_persistent(),
            AnyProperty::U64(l) => l.spec_persistent(),
            AnyProperty::I64(l) => l.spec_persistent(),
            AnyProperty::Str(l) => l.spec_persistent(),
            AnyProperty::Status(l) => l.spec_persistent(),
        }
    }

    /// `other` is `self` with the values at `i` and `j` swapped.
    pub open spec fn rel_swapped(&self, other: &Self, i: int, j: int) -> bool {
        match (self, other) {
            (AnyProperty::Bool(a), AnyProperty::Bool(b)) => a.swapped(b, i, j),
            (AnyProperty::U8(a), AnyProperty::U8(b)) => a.swapped(b, i, j),
            (AnyProperty::I8(a), AnyProperty::I8(b)) => a.swapped(b, i, j),
            (AnyProperty::U16(a), AnyProperty::U16(b)) => a.swapped(b, i, j),
            (AnyProperty::I16(a), AnyProperty::I16(b)) => a.swapped(b, i, j),
            (AnyProperty::U32(a), AnyProperty::U32(b)) => a.swapped(b, i, j),
            (AnyProperty::I32(a), AnyProperty::I32(b)) => a.swapped(b, i, j),
            (AnyProperty::U64(a), AnyProperty::U64(b)) => a.swapped(b, i, j),
            (AnyProperty::I64(a), AnyProperty::I64(b)) => a.swapped(b, i, j),
            (AnyProperty::Str(a), AnyProperty::Str(b)) => a.swapped(b, i, j),
            (AnyProperty::Status(a), AnyProperty::Status(b)) => a.swapped(b, i, j),
            _ => false,
        }
    }

    /// `other` is `self` with the value at `src` copied to `dst`.
    pub open spec fn rel_copied(&self, other: &Self, src: int, dst: int) -> bool {
        match (self, other) {
            (AnyProperty::Bool(a), AnyProperty::Bool(b)) => a.copied(b, src, dst),
            (AnyProperty::U8(a), AnyProperty::U8(b)) => a.copied(b, src, dst),
            (AnyProperty::I8(a), AnyProperty::I8(b)) => a.copied(b, src, dst),
            (AnyProperty::U16(a), AnyProperty::U16(b)) => a.copied(b, src, dst),
            (AnyProperty::I16(a), AnyProperty::I16(b)) => a.copied(b, src, dst),
            (AnyProperty::U32(a), AnyProperty::U32(b)) => a.copied(b, src, dst),
            (AnyProperty::I32(a), AnyProperty::I32(b)) => a.copied(b, src, dst),
            (AnyProperty::U64(a), AnyProperty::U64(b)) => a.copied(b, src, dst),
            (AnyProperty::I64(a), AnyProperty::I64(b)) => a.copied(b, src, dst),
            (AnyProperty::Str(a), AnyProperty::Str(b)) => a.copied(b, src, dst),
            (AnyProperty::Status(a), AnyProperty::Status(b)) => a.copied(b, src, dst),
            _ => false,
        }
    }

    /// `other` is `self` resized to `n` values, new ones default.
    pub open spec fn rel_resized(&self, other: &Self, n: nat) -> bool {
        match (self, other) {
            (AnyProperty::Bool(a), AnyProperty::Bool(b)) => a.resized(b, n),
            (AnyProperty::U8(a), AnyProperty::U8(b)) => a.resized(b, n),
            (AnyProperty::I8(a), AnyProperty::I8(b)) => a.resized(b, n),
            (AnyProperty::U16(a), AnyProperty::U16(b)) => a.resized(b, n),
            (AnyProperty::I16(a), AnyProperty::I16(b)) => a.resized(b, n),
            (AnyProperty::U32(a), AnyProperty::U32(b)) => a.resized(b, n),
            (AnyProperty::I32(a), AnyProperty::I32(b)) => a.resized(b, n),
            (AnyProperty::U64(a), AnyProperty::U64(b)) => a.resized(b, n),
            (AnyProperty::I64(a), AnyProperty::I64(b)) => a.resized(b, n),
            (AnyProperty::Str(a), AnyProperty::Str(b)) => a.resized(b, n),
            (AnyProperty::Status(a), AnyProperty::Status(b)) => a.resized(b, n),
            _ => false,
        }
    }

    /// Swapping the values at `i` and `j` twice leaves the list as it was.
    pub proof fn lemma_rel_swap_twice(&self, b: &Self, c: &Self, i: int, j: int)
        requires
            0 <= i < self.spec_len(),
            0 <= j < self.spec_len(),
            self.rel_swapped(b, i, j),
            b.rel_swapped(c, i, j),
        ensures
            self.rel_unchanged(c),
    {
        match (self, b, c) {
            (AnyProperty::Bool(x), AnyProperty::Bool(y), AnyProperty::Bool(z)) => x.lemma_swap_twice(y, z, i, j),
            (AnyProperty::U8(x), AnyProperty::U8(y), AnyProperty::U8(z)) => x.lemma_swap_twice(y, z, i, j),
            (AnyProperty::I8(x), AnyProperty::I8(y), AnyProperty::I8(z)) => x.lemma_swap_twice(y, z, i, j),
            (AnyProperty::U16(x), AnyProperty::U16(y), AnyProperty::U16(z)) => x.lemma_swap_twice(y, z, i, j),
            (AnyProperty::I16(x), AnyProperty::I16(y), AnyProperty::I16(z)) => x.lemma_swap_twice(y, z, i, j),
            (AnyProperty::U32(x), AnyProperty::U32(y), AnyProperty::U32(z)) => x.lemma_swap_twice(y, z, i, j),
            (AnyProperty::I32(x), AnyProperty::I32(y), AnyProperty::I32(z)) => x.lemma_swap_twice(y, z, i, j),
            (AnyProperty::U64(x), AnyProperty::U64(y), AnyProperty::U64(z)) => x.lemma_swap_twice(y, z, i, j),
            (AnyProperty::I64(x), AnyProperty::I64(y), AnyProperty::I64(z)) => x.lemma_swap_twice(y, z, i, j),
            (AnyProperty::Str(x), AnyProperty::Str(y), AnyProperty::Str(z)) => x.lemma_swap_twice(y, z, i, j),
            (AnyProperty::Status(x), AnyProperty::Status(y), AnyProperty::Status(z)) => x.lemma_swap_twice(y, z, i, j),
            _ => {},
        }
    }

    /// `other` is `self` with one more, default, value.
    pub open spec fn rel_pushed(&self, other: &Self) -> bool {
        match (self, other) {
            (AnyProperty::Bool(a), AnyProperty::Bool(b)) => a.pushed(b),
            (AnyProperty::U8(a), AnyProperty::U8(b)) => a.pushed(b),
            (AnyProperty::I8(a), AnyProperty::I8(b)) => a.pushed(b),
            (AnyProperty::U16(a), AnyProperty::U16(b)) => a.pushed(b),
            (AnyProperty::I16(a), AnyProperty::I16(b)) => a.pushed(b),
            (AnyProperty::U32(a), AnyProperty::U32(b)) => a.pushed(b),
            (AnyProperty::I32(a), AnyProperty::I32(b)) => a.pushed(b),
            (AnyProperty::U64(a), AnyProperty::U64(b)) => a.pushed(b),
            (AnyProperty::I64(a), AnyProperty::I64(b)) => a.pushed(b),
            (AnyProperty::Str(a), AnyProperty::Str(b)) => a.pushed(b),
            (AnyProperty::Status(a), AnyProperty::Status(b)) => a.pushed(b),
            _ => false,
        }
    }

    /// `other` is `self` with all values removed.
    pub open spec fn rel_cleared(&self, other: &Self) -> bool {
        match (self, other) {
            (AnyProperty::Bool(a), AnyProperty::Bool(b)) => a.cleared(b),
            (AnyProperty::U8(a), AnyProperty::U8(b)) => a.cleared(b),
            (AnyProperty::I8(a), AnyProperty::I8(b)) => a.cleared(b),
            (AnyProperty::U16(a), AnyProperty::U16(b)) => a.cleared(b),
            (AnyProperty::I16(a), AnyProperty::I16(b)) => a.cleared(b),
            (AnyProperty::U32(a), AnyProperty::U32(b)) => a.cleared(b),
            (AnyProperty::I32(a), AnyProperty::I32(b)) => a.cleared(b),
            (AnyProperty::U64(a), AnyProperty::U64(b)) => a.cleared(b),
            (AnyProperty::I64(a), AnyProperty::I64(b)) => a.cleared(b),
            (AnyProperty::Str(a), AnyProperty::Str(b)) => a.cleared(b),
            (AnyProperty::Status(a), AnyProperty::Status(b)) => a.cleared(b),
            _ => false,
        }
    }

    /// `other` holds the values of `self`.
    pub open spec fn rel_unchanged(&self, other: &Self) -> bool {
        match (self, other) {
            (AnyProperty::Bool(a), AnyProperty::Bool(b)) => a.unchanged(b),
            (AnyProperty::U8(a), AnyProperty::U8(b)) => a.unchanged(b),
            (AnyProperty::I8(a), AnyProperty::I8(b)) => a.unchanged(b),
            (AnyProperty::U16(a), AnyProperty::U16(b)) => a.unchanged(b),
            (AnyProperty::I16(a), AnyProperty::I16(b)) => a.unchanged(b),
            (AnyProperty::U32(a), AnyProperty::U32(b)) => a.unchanged(b),
            (AnyProperty::I32(a), AnyProperty::I32(b)) => a.unchanged(b),
            (AnyProperty::U64(a), AnyProperty::U64(b)) => a.unchanged(b),
            (AnyProperty::I64(a), AnyProperty::I64(b)) => a.unchanged(b),
            (AnyProperty::Str(a), AnyProperty::Str(b)) => a.unchanged(b),
            (AnyProperty::Status(a), AnyProperty::Status(b)) => a.unchanged(b),
            _ => false,
        }
    }
}

impl<H: ItemHandle> AnyProperty<H> {
    /// The name of the property.
    pub fn name(&self) -> (s: &str)
        ensures
            s@ == self.spec_name(),
    {
        match self {
            AnyProperty::Bool(l) => l.name(),
            AnyProperty::U8(l) => l.name(),
            AnyProperty::I8(l) => l.name(),
            AnyProperty::U16(l) => l.name(),
            AnyProperty::I16(l) => l.name(),
            AnyProperty::U32(l) => l.name(),
            AnyProperty::I32(l) => l.name(),
            AnyProperty::U64(l) => l.name(),
            AnyProperty::I64(l) => l.name(),
            AnyProperty::Str(l) => l.name(),
            AnyProperty::Status(l) => l.name(),
        }
    }

    /// Number of values held.
    pub fn len(&self) -> (n: usize)
        ensures
            n == self.spec_len(),
    {
        match self {
            AnyProperty::Bool(l) => l.len(),
            AnyProperty::U8(l) => l.len(),
            AnyProperty::I8(l) => l.len(),
            AnyProperty::U16(l) => l.len(),
            AnyProperty::I16(l) => l.len(),
            AnyProperty::U32(l) => l.len(),
            AnyProperty::I32(l) => l.len(),
            AnyProperty::U64(l) => l.len(),
            AnyProperty::I64(l) => l.len(),
            AnyProperty::Str(l) => l.len(),
            AnyProperty::Status(l) => l.len(),
        }
    }

    /// Whether the property is to be persisted.
    pub fn persistent(&self) -> (b: bool)
        ensures
            b == self.spec_persistent(),
    {
        match self {
            AnyProperty::Bool(l) => l.persistent(),
            AnyProperty::U8(l) => l.persistent(),
            AnyProperty::I8(l) => l.persistent(),
            AnyProperty::U16(l) => l.persistent(),
            AnyProperty::I16(l) => l.persistent(),
            AnyProperty::U32(l) => l.persistent(),
            AnyProperty::I32(l) => l.persistent(),
            AnyProperty::U64(l) => l.persistent(),
            AnyProperty::I64(l) => l.persistent(),
            AnyProperty::Str(l) => l.persistent(),
            AnyProperty::Status(l) => l.persistent(),
        }
    }

    /// Swaps the values of two items.
    pub fn swap(&mut self, i0: H, i1: H)
        requires
            i0.spec_index() < old(self).spec_len(),
            i1.spec_index() < old(self).spec_len(),
        ensures
            old(self).rel_swapped(final(self), i0.spec_index() as int, i1.spec_index() as int),
    {
        match self {
            AnyProperty::Bool(l) => l.swap(i0, i1),
            AnyProperty::U8(l) => l.swap(i0, i1),
            AnyProperty::I8(l) => l.swap(i0, i1),
            AnyProperty::U16(l) => l.swap(i0, i1),
            AnyProperty::I16(l) => l.swap(i0, i1),
            AnyProperty::U32(l) => l.swap(i0, i1),
            AnyProperty::I32(l) => l.swap(i0, i1),
            AnyProperty::U64(l) => l.swap(i0, i1),
            AnyProperty::I64(l) => l.swap(i0, i1),
            AnyProperty::Str(l) => l.swap(i0, i1),
            AnyProperty::Status(l) => l.swap(i0, i1),
        }
    }

    /// Copies the value of item `i_src` to item `i_dst`.
    pub fn copy(&mut self, i_src: H, i_dst: H)
        requires
            i_src.spec_index() < old(self).spec_len(),
            i_dst.spec_index() < old(self).spec_len(),
        ensures
            old(self).rel_copied(final(self), i_src.spec_index() as int, i_dst.spec_index() as int),
    {
        match self {
            AnyProperty::Bool(l) => l.copy(i_src, i_dst),
            AnyProperty::U8(l) => l.copy(i_src, i_dst),
            AnyProperty::I8(l) => l.copy(i_src, i_dst),
            AnyProperty::U16(l) => l.copy(i_src, i_dst),
            AnyProperty::I16(l) => l.copy(i_src, i_dst),
            AnyProperty::U32(l) => l.copy(i_src, i_dst),
            AnyProperty::I32(l) => l.copy(i_src, i_dst),
            AnyProperty::U64(l) => l.copy(i_src, i_dst),
            AnyProperty::I64(l) => l.copy(i_src, i_dst),
            AnyProperty::Str(l) => l.copy(i_src, i_dst),
            AnyProperty::Status(l) => l.copy(i_src, i_dst),
        }
    }

    /// Reserves memory for `n` values in total.
    /// Only the allocated capacity grows, which depends on the allocator and is not modelled
    /// here; the contract states that everything else stays as it was.
    pub fn reserve(&mut self, n: Size)
        ensures
            old(self).rel_unchanged(final(self)),
    {
        match self {
            AnyProperty::Bool(l) => l.reserve(n),
            AnyProperty::U8(l) => l.reserve(n),
            AnyProperty::I8(l) => l.reserve(n),
            AnyProperty::U16(l) => l.reserve(n),
            AnyProperty::I16(l) => l.reserve(n),
            AnyProperty::U32(l) => l.reserve(n),
            AnyProperty::I32(l) => l.reserve(n),
            AnyProperty::U64(l) => l.reserve(n),
            AnyProperty::I64(l) => l.reserve(n),
            AnyProperty::Str(l) => l.reserve(n),
            AnyProperty::Status(l) => l.reserve(n),
        }
    }

    /// Resizes to hold `n` values.
    pub fn resize(&mut self, n: Size)
        requires
            n < INVALID_INDEX,
        ensures
            old(self).rel_resized(final(self), n as nat),
    {
        match self {
            AnyProperty::Bool(l) => l.resize(n),
            AnyProperty::U8(l) => l.resize(n),
            AnyProperty::I8(l) => l.resize(n),
            AnyProperty::U16(l) => l.resize(n),
            AnyProperty::I16(l) => l.resize(n),
            AnyProperty::U32(l) => l.resize(n),
            AnyProperty::I32(l) => l.resize(n),
            AnyProperty::U64(l) => l.resize(n),
            AnyProperty::I64(l) => l.resize(n),
            AnyProperty::Str(l) => l.resize(n),
            AnyProperty::Status(l) => l.resize(n),
        }
    }

    /// Removes all values.
    pub fn clear(&mut self)
        ensures
            old(self).rel_cleared(final(self)),
    {
        match self {
            AnyProperty::Bool(l) => l.clear(),
            AnyProperty::U8(l) => l.clear(),
            AnyProperty::I8(l) => l.clear(),
            AnyProperty::U16(l) => l.clear(),
            AnyProperty::I16(l) => l.clear(),
            AnyProperty::U32(l) => l.clear(),
            AnyProperty::I32(l) => l.clear(),
            AnyProperty::U64(l) => l.clear(),
            AnyProperty::I64(l) => l.clear(),
            AnyProperty::Str(l) => l.clear(),
            AnyProperty::Status(l) => l.clear(),
        }
    }

    /// Appends one default value.
    pub fn push(&mut self)
        requires
            old(self).spec_len() < usize::MAX,
        ensures
            old(self).rel_pushed(final(self)),
    {
        match self {
            AnyProperty::Bool(l) => l.push(),
            AnyProperty::U8(l) => l.push(),
            AnyProperty::I8(l) => l.push(),
            AnyProperty::U16(l) => l.push(),
            AnyProperty::I16(l) => l.push(),
            AnyProperty::U32(l) => l.push(),
            AnyProperty::I32(l) => l.push(),
            AnyProperty::U64(l) => l.push(),
            AnyProperty::I64(l) => l.push(),
            AnyProperty::Str(l) => l.push(),
            AnyProperty::Status(l) => l.push(),
        }
    }

    /// One line describing the property list: its name, and whether it is persistent.
    pub fn debug_string(&self) -> (s: String)
        ensures
            s@ == self.spec_debug(),
    {
        match self {
            AnyProperty::Bool(l) => l.debug_string(),
            AnyProperty::U8(l) => l.debug_string(),
            AnyProperty::I8(l) => l.debug_string(),
            AnyProperty::U16(l) => l.debug_string(),
            AnyProperty::I16(l) => l.debug_string(),
            AnyProperty::U32(l) => l.debug_string(),
            AnyProperty::I32(l) => l.debug_string(),
            AnyProperty::U64(l) => l.debug_string(),
            AnyProperty::I64(l) => l.debug_string(),
            AnyProperty::Str(l) => l.debug_string(),
            AnyProperty::Status(l) => l.debug_string(),
        }
    }
}

impl<H> AnyProperty<H> {
    /// The line describing the property list: two spaces, its name, `, persistent` where it is
    /// persistent, and a line break.
    pub open spec fn spec_debug(&self) -> Seq<char> {
        debug_line(self.spec_name(), self.spec_persistent())
    }
}


impl<H> Clone for AnyProperty<H> {
    fn clone(&self) -> (r: Self)
        ensures
            self.rel_unchanged(&r),
    {
        match self {
            AnyProperty::Bool(l) => AnyProperty::Bool(l.clone()),
            AnyProperty::U8(l) => AnyProperty::U8(l.clone()),
            AnyProperty::I8(l) => AnyProperty::I8(l.clone()),
            AnyProperty::U16(l) => AnyProperty::U16(l.clone()),
            AnyProperty::I16(l) => AnyProperty::I16(l.clone()),
            AnyProperty::U32(l) => AnyProperty::U32(l.clone()),
            AnyProperty::I32(l) => AnyProperty::I32(l.clone()),
            AnyProperty::U64(l) => AnyProperty::U64(l.clone()),
            AnyProperty::I64(l) => AnyProperty::I64(l.clone()),
            AnyProperty::Str(l) => AnyProperty::Str(l.clone()),
            AnyProperty::Status(l) => AnyProperty::Status(l.clone()),
        }
    }
}

}
