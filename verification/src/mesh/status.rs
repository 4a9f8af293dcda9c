//! Status flags for mesh items.

use vstd::prelude::*;

verus! {

/// The integer type holding the status bits.
pub type FlagBits = u32;

/// Whether the item is deleted.
pub const DELETED: FlagBits = 1;
/// Whether the item is locked.
pub const LOCKED: FlagBits = 2;
/// Whether the item is selected.
pub const SELECTED: FlagBits = 4;
/// Whether the item is hidden.
pub const HIDDEN: FlagBits = 8;
/// Whether the item is a feature.
pub const FEATURE: FlagBits = 16;
/// Whether the item is tagged.
pub const TAGGED: FlagBits = 32;
/// Whether the item is tagged (alternate flag).
pub const TAGGED2: FlagBits = 64;
/// Whether the item was non-2-manifold and was fixed.
pub const FIXED_NON_MANIFOLD: FlagBits = 128;
/// All status flags together.
pub const ALL_FLAGS: FlagBits = 255;

/// Flags for each vertex/halfedge/edge/face.
#[derive(Clone, Copy, PartialEq, Eq, Structural, Debug, Hash)]
pub struct Status {
    bits: FlagBits,
}

impl Status {
    /// The raw bits of `self`.
    pub closed spec fn spec_bits(self) -> FlagBits {
        self.bits
    }

    /// Whether the bits of `flag` are all set in `self`.
    pub open spec fn has(self, flag: FlagBits) -> bool {
        self.spec_bits() & flag == flag
    }

    /// The status with the given bits, dropping those that are not status flags.
    pub closed spec fn from_bits_spec(bits: FlagBits) -> Status {
        Status { bits: bits & ALL_FLAGS }
    }

    #[verifier::type_invariant]
    spec fn inv(self) -> bool {
        self.bits & ALL_FLAGS == self.bits
    }

    /// A status is the status of its own bits.
    pub proof fn lemma_from_own_bits(self)
        requires
            self.spec_bits() & ALL_FLAGS == self.spec_bits(),
        ensures
            Status::from_bits_spec(self.spec_bits()) == self,
    {
    }

    /// Two statuses with the same bits are equal.
    pub proof fn lemma_bits_ext(self, other: Status)
        requires
            self.spec_bits() == other.spec_bits(),
        ensures
            self == other,
    {
    }

    /// The status with no flag set.
    pub fn empty() -> (s: Status)
        ensures
            s.spec_bits() == 0,
    {
        assert(0u32 & 255u32 == 0u32) by (bit_vector);
        Status { bits: 0 }
    }

    /// The status with every flag set.
    pub fn all() -> (s: Status)
        ensures
            s.spec_bits() == ALL_FLAGS,
    {
        assert(255u32 & 255u32 == 255u32) by (bit_vector);
        Status { bits: ALL_FLAGS }
    }

    /// The raw bits.
    pub fn bits(self) -> (b: FlagBits)
        ensures
            b == self.spec_bits(),
            b & ALL_FLAGS == b,
    {
        proof { use_type_invariant(self); }
        self.bits
    }

    /// The status with the given bits, dropping those that are not status flags.
    pub fn from_bits_truncate(bits: FlagBits) -> (s: Status)
        ensures
            s == Status::from_bits_spec(bits),
            s.spec_bits() == bits & ALL_FLAGS,
    {
        assert((bits & 255u32) & 255u32 == bits & 255u32) by (bit_vector);
        Status { bits: bits & ALL_FLAGS }
    }

    /// Whether no flag is set.
    pub fn is_empty(self) -> (b: bool)
        ensures
            b == (self.spec_bits() == 0),
    {
        self.bits == 0
    }

    /// Whether all flags of `other` are set in `self`.
    pub fn contains(self, other: Status) -> (b: bool)
        ensures
            b == self.has(other.spec_bits()),
    {
        self.bits & other.bits == other.bits
    }

    /// The flags set in `self` or in `other`.
    pub fn union(self, other: Status) -> (s: Status)
        ensures
            s.spec_bits() == self.spec_bits() | other.spec_bits(),
    {
        proof {
            use_type_invariant(self);
            use_type_invariant(other);
        }
        let (a, b) = (self.bits, other.bits);
        assert((a | b) & 255u32 == a | b) by (bit_vector)
            requires a & 255u32 == a, b & 255u32 == b;
        Status { bits: a | b }
    }

    /// The flags set in both `self` and `other`.
    pub fn intersection(self, other: Status) -> (s: Status)
        ensures
            s.spec_bits() == self.spec_bits() & other.spec_bits(),
    {
        proof { use_type_invariant(self); }
        let (a, b) = (self.bits, other.bits);
        assert((a & b) & 255u32 == a & b) by (bit_vector)
            requires a & 255u32 == a;
        Status { bits: a & b }
    }

    /// Sets the flags of `other` in `self`.
    pub fn insert(&mut self, other: Status)
        ensures
            final(self).spec_bits() == old(self).spec_bits() | other.spec_bits(),
    {
        *self = self.union(other);
    }

    /// Clears the flags of `other` in `self`.
    pub fn remove(&mut self, other: Status)
        ensures
            final(self).spec_bits() == old(self).spec_bits() & !other.spec_bits(),
    {
        proof { use_type_invariant(*self); }
        let (a, b) = (self.bits, other.bits);
        assert((a & !b) & 255u32 == a & !b) by (bit_vector)
            requires a & 255u32 == a;
        *self = Status { bits: a & !b };
    }

    /// Sets the flags of `other` if `value` holds, else clears them.
    pub fn set(&mut self, other: Status, value: bool)
        ensures
            value ==> final(self).spec_bits() == old(self).spec_bits() | other.spec_bits(),
            !value ==> final(self).spec_bits() == old(self).spec_bits() & !other.spec_bits(),
    {
        if value {
            self.insert(other);
        } else {
            self.remove(other);
        }
    }

    /// Whether the single flag `flag` is set.
    fn flag(self, flag: FlagBits) -> (b: bool)
        ensures
            b == self.has(flag),
    {
        self.bits & flag == flag
    }

    /// Sets the single flag `flag` if `value` holds, else clears it.
    fn set_flag(&mut self, flag: FlagBits, value: bool)
        requires
            flag & ALL_FLAGS == flag,
        ensures
            value ==> final(self).spec_bits() == old(self).spec_bits() | flag,
            !value ==> final(self).spec_bits() == old(self).spec_bits() & !flag,
    {
        let f = Status::from_bits_truncate(flag);
        self.set(f, value);
    }

    /// Whether the DELETED flag is set.
    pub fn deleted(self) -> (b: bool)
        ensures b == self.has(DELETED),
    {
        self.flag(DELETED)
    }

    /// Sets the DELETED flag.
    pub fn set_deleted(&mut self, b: bool)
        ensures
            b ==> final(self).spec_bits() == old(self).spec_bits() | DELETED,
            !b ==> final(self).spec_bits() == old(self).spec_bits() & !DELETED,
    {
        proof { lemma_flag_bits(); }
        self.set_flag(DELETED, b)
    }

    /// Whether the LOCKED flag is set.
    pub fn locked(self) -> (b: bool)
        ensures b == self.has(LOCKED),
    {
        self.flag(LOCKED)
    }

    /// Sets the LOCKED flag.
    pub fn set_locked(&mut self, b: bool)
        ensures
            b ==> final(self).spec_bits() == old(self).spec_bits() | LOCKED,
            !b ==> final(self).spec_bits() == old(self).spec_bits() & !LOCKED,
    {
        proof { lemma_flag_bits(); }
        self.set_flag(LOCKED, b)
    }

    /// Whether the SELECTED flag is set.
    pub fn selected(self) -> (b: bool)
        ensures b == self.has(SELECTED),
    {
        self.flag(SELECTED)
    }

    /// Sets the SELECTED flag.
    pub fn set_selected(&mut self, b: bool)
        ensures
            b ==> final(self).spec_bits() == old(self).spec_bits() | SELECTED,
            !b ==> final(self).spec_bits() == old(self).spec_bits() & !SELECTED,
    {
        proof { lemma_flag_bits(); }
        self.set_flag(SELECTED, b)
    }

    /// Whether the HIDDEN flag is set.
    pub fn hidden(self) -> (b: bool)
        ensures b == self.has(HIDDEN),
    {
        self.flag(HIDDEN)
    }

    /// Sets the HIDDEN flag.
    pub fn set_hidden(&mut self, b: bool)
        ensures
            b ==> final(self).spec_bits() == old(self).spec_bits() | HIDDEN,
            !b ==> final(self).spec_bits() == old(self).spec_bits() & !HIDDEN,
    {
        proof { lemma_flag_bits(); }
        self.set_flag(HIDDEN, b)
    }

    /// Whether the FEATURE flag is set.
    pub fn feature(self) -> (b: bool)
        ensures b == self.has(FEATURE),
    {
        self.flag(FEATURE)
    }

    /// Sets the FEATURE flag.
    pub fn set_feature(&mut self, b: bool)
        ensures
            b ==> final(self).spec_bits() == old(self).spec_bits() | FEATURE,
            !b ==> final(self).spec_bits() == old(self).spec_bits() & !FEATURE,
    {
        proof { lemma_flag_bits(); }
        self.set_flag(FEATURE, b)
    }

    /// Whether the TAGGED flag is set.
    pub fn tagged(self) -> (b: bool)
        ensures b == self.has(TAGGED),
    {
        self.flag(TAGGED)
    }

    /// Sets the TAGGED flag.
    pub fn set_tagged(&mut self, b: bool)
        ensures
            b ==> final(self).spec_bits() == old(self).spec_bits() | TAGGED,
            !b ==> final(self).spec_bits() == old(self).spec_bits() & !TAGGED,
    {
        proof { lemma_flag_bits(); }
        self.set_flag(TAGGED, b)
    }

    /// Whether the TAGGED2 flag is set.
    pub fn tagged2(self) -> (b: bool)
        ensures b == self.has(TAGGED2),
    {
        self.flag(TAGGED2)
    }

    /// Sets the TAGGED2 flag.
    pub fn set_tagged2(&mut self, b: bool)
        ensures
            b ==> final(self).spec_bits() == old(self).spec_bits() | TAGGED2,
            !b ==> final(self).spec_bits() == old(self).spec_bits() & !TAGGED2,
    {
        proof { lemma_flag_bits(); }
        self.set_flag(TAGGED2, b)
    }

    /// Whether the FIXED_NON_MANIFOLD flag is set.
    pub fn fixed_non_manifold(self) -> (b: bool)
        ensures b == self.has(FIXED_NON_MANIFOLD),
    {
        self.flag(FIXED_NON_MANIFOLD)
    }

    /// Sets the FIXED_NON_MANIFOLD flag.
    pub fn set_fixed_non_manifold(&mut self, b: bool)
        ensures
            b ==> final(self).spec_bits() == old(self).spec_bits() | FIXED_NON_MANIFOLD,
            !b ==> final(self).spec_bits() == old(self).spec_bits() & !FIXED_NON_MANIFOLD,
    {
        proof { lemma_flag_bits(); }
        self.set_flag(FIXED_NON_MANIFOLD, b)
    }

    /// Iterator to enumerate all `Status` flags, one at a time, lowest bit first.
    pub fn iter() -> (it: Iter)
        ensures
            it.count() == 0,
    {
        assert(1u32 == 1u32 << 0u32 && 255u32 == 255u32 >> 0u32) by (bit_vector);
        let it = Iter { cond: Status::all().bits(), flag: 1 };
        proof {
            let kc = choose|k: u32| k <= 8 && it.flag == 1u32 << k && it.cond == 255u32 >> k;
            assert(kc == 0u32) by (bit_vector)
                requires kc <= 8u32, 1u32 << kc == 1u32;
        }
        it
    }
}

impl View for Status {
    type V = Status;

    open spec fn view(&self) -> Status {
        *self
    }
}

impl Default for Status {
    fn default() -> (s: Status)
        ensures
            s.spec_bits() == 0,
    {
        Status::empty()
    }
}

/// Iterator to enumerate all `Status` bits/flags.
pub struct Iter {
    cond: FlagBits,
    flag: FlagBits,
}

impl Iter {
    #[verifier::type_invariant]
    spec fn inv(self) -> bool {
        exists|k: u32| k <= 8 && self.flag == 1u32 << k && self.cond == 255u32 >> k
    }

    /// The number of flags returned so far.
    pub closed spec fn count(self) -> nat {
        (choose|k: u32| k <= 8 && self.flag == 1u32 << k && self.cond == 255u32 >> k) as nat
    }

    /// Returns the next flag (`1 << count`) while fewer than 8 have been returned, else `None`.
    pub fn next(&mut self) -> (r: Option<Status>)
        ensures
            old(self).count() < 8 ==> final(self).count() == old(self).count() + 1
                && r == Some(Status::from_bits_spec((1u32 << old(self).count()) as u32)),
            old(self).count() >= 8 ==> final(self).count() == old(self).count() && r is None,
    {
        proof { use_type_invariant(&*self); }
        let ghost k = self.count();
        let ghost ku = k as u32;
        proof {
            assert(k <= 8);
        }
        if self.cond == 0 {
            assert(ku == 8u32) by (bit_vector)
                requires ku <= 8u32, 255u32 >> ku == 0u32;
            None
        } else {
            let (f, c) = (self.flag, self.cond);
            assert(ku < 8u32) by (bit_vector)
                requires ku <= 8u32, 255u32 >> ku != 0u32;
            let status = Status::from_bits_truncate(f);
            assert(f << 1u32 == 1u32 << (ku + 1) as u32 && c >> 1u32 == 255u32 >> (ku + 1) as u32) by (bit_vector)
                requires ku < 8u32, f == 1u32 << ku, c == 255u32 >> ku;
            *self = Iter { cond: c >> 1, flag: f << 1 };
            proof {
                let k2 = (ku + 1) as u32;
                assert(k2 <= 8 && self.flag == 1u32 << k2 && self.cond == 255u32 >> k2);
                let c2 = self.count();
                assert(c2 == k2) by {
                    let kc = choose|k: u32| k <= 8 && self.flag == 1u32 << k && self.cond == 255u32 >> k;
                    assert(kc == k2) by (bit_vector)
                        requires kc <= 8u32, k2 <= 8u32, 1u32 << kc == 1u32 << k2;
                }
            }
            Some(status)
        }
    }
}

/// Each named flag is one of the status bits.
proof fn lemma_flag_bits()
    ensures
        DELETED & ALL_FLAGS == DELETED,
        LOCKED & ALL_FLAGS == LOCKED,
        SELECTED & ALL_FLAGS == SELECTED,
        HIDDEN & ALL_FLAGS == HIDDEN,
        FEATURE & ALL_FLAGS == FEATURE,
        TAGGED & ALL_FLAGS == TAGGED,
        TAGGED2 & ALL_FLAGS == TAGGED2,
        FIXED_NON_MANIFOLD & ALL_FLAGS == FIXED_NON_MANIFOLD,
{
    assert(1u32 & 255u32 == 1u32 && 2u32 & 255u32 == 2u32 && 4u32 & 255u32 == 4u32
        && 8u32 & 255u32 == 8u32 && 16u32 & 255u32 == 16u32 && 32u32 & 255u32 == 32u32
        && 64u32 & 255u32 == 64u32 && 128u32 & 255u32 == 128u32) by (bit_vector);
}

/// Enumerating the status flags one by one and taking their union gives all flags.
pub proof fn lemma_iter_covers_all()
    ensures
        (1u32 << 0u32) | (1u32 << 1u32) | (1u32 << 2u32) | (1u32 << 3u32) | (1u32 << 4u32)
            | (1u32 << 5u32) | (1u32 << 6u32) | (1u32 << 7u32) == ALL_FLAGS,
{
    assert((1u32 << 0u32) | (1u32 << 1u32) | (1u32 << 2u32) | (1u32 << 3u32) | (1u32 << 4u32)
        | (1u32 << 5u32) | (1u32 << 6u32) | (1u32 << 7u32) == 255u32) by (bit_vector);
}

}
