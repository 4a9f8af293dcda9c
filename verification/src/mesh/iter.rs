//! Iterators to enumerate the items of a mesh, optionally skipping DELETED and HIDDEN items.

use vstd::prelude::*;
use crate::mesh::item_handle::{item_count, MeshItemHandle};
use crate::mesh::mesh::Mesh;
use crate::mesh::status::{Status, DELETED, HIDDEN};
use crate::property::handle::Handle;
use crate::property::list::PropertyList;
use crate::property::size::{Size, INVALID_INDEX};

verus! {

/// The bits of the statuses that iterators skip: DELETED and HIDDEN.
pub open spec fn skip_mask() -> u32 {
    9
}

/// A status that marks an item DELETED or HIDDEN.
pub open spec fn skippable(s: Status) -> bool {
    s.spec_bits() & skip_mask() != 0
}

/// Item `j` of type `H` is skipped: skipping is on, and the mesh has a status list of the item
/// type in which item `j` is DELETED or HIDDEN.
pub open spec fn is_skipped<H: MeshItemHandle>(m: &Mesh, skip: bool, j: int) -> bool {
    skip && (H::spec_props(m).lookup(H::spec_status(m)) matches Some(l) && skippable(l.contents()[j]))
}

/// The items of type `H` from `k` on that are not skipped, in increasing order.
pub open spec fn unskipped_from<H: MeshItemHandle>(m: &Mesh, skip: bool, k: int) -> Seq<int>
    decreases item_count::<H>(m) - k,
{
    if k >= item_count::<H>(m) {
        Seq::empty()
    } else if is_skipped::<H>(m, skip, k) {
        unskipped_from::<H>(m, skip, k + 1)
    } else {
        seq![k] + unskipped_from::<H>(m, skip, k + 1)
    }
}

/// The items of type `H` from `k` down to 0 that are not skipped, in decreasing order.
pub open spec fn unskipped_down<H: MeshItemHandle>(m: &Mesh, skip: bool, k: int) -> Seq<int>
    decreases k + 1,
{
    if k < 0 {
        Seq::empty()
    } else if is_skipped::<H>(m, skip, k) {
        unskipped_down::<H>(m, skip, k - 1)
    } else {
        seq![k] + unskipped_down::<H>(m, skip, k - 1)
    }
}

/// What an iterator over the items of type `H` of `m` may be started on: the item count fits in
/// an index, and a status list, if any, has a status for each item.
pub open spec fn can_iterate<H: MeshItemHandle>(m: &Mesh) -> bool {
    &&& item_count::<H>(m) <= Size::MAX
    &&& H::spec_props(m).lookup(H::spec_status(m)) matches Some(l) ==> l.contents().len() >= item_count::<H>(m)
}

/// State shared by the forward and backward iterators.
struct IterBase<'a, H: MeshItemHandle> {
    mesh: &'a Mesh,
    h: H,
    status_prop: Option<&'a PropertyList<Status, H>>,
    skip_bits: Status,
}

impl<'a, H: MeshItemHandle> Clone for IterBase<'a, H> {
    fn clone(&self) -> (r: Self)
        ensures
            r == *self,
    {
        *self
    }
}

impl<'a, H: MeshItemHandle> Copy for IterBase<'a, H> {
}

impl<'a, H: MeshItemHandle> IterBase<'a, H> {
    spec fn skip(&self) -> bool {
        self.skip_bits.spec_bits() != 0
    }

    spec fn pos(&self) -> int {
        self.h.spec_index() as int
    }

    spec fn wf(&self) -> bool {
        &&& can_iterate::<H>(self.mesh)
        &&& self.skip_bits.spec_bits() == skip_mask() || self.skip_bits.spec_bits() == 0
        &&& match self.status_prop {
            Some(l) => H::spec_props(self.mesh).lookup(H::spec_status(self.mesh)) == Some(*l),
            None => H::spec_props(self.mesh).lookup(H::spec_status(self.mesh)) is None,
        }
    }

    fn new(mesh: &'a Mesh, handle: H, skip: bool) -> (r: Self)
        requires
            can_iterate::<H>(mesh),
        ensures
            r.wf(),
            *r.mesh == *mesh,
            r.h == handle,
            r.skip() == skip,
    {
        let skip_bits = if skip {
            assert((1u32 | 8u32) & 255u32 == 9u32) by (bit_vector);
            Status::from_bits_truncate(DELETED | HIDDEN)
        } else {
            Status::empty()
        };
        IterBase { mesh, h: handle, status_prop: H::status_prop(mesh), skip_bits }
    }

    /// Whether the current item is to be skipped.
    fn should_skip(&self) -> (b: bool)
        requires
            self.wf(),
            self.pos() < item_count::<H>(self.mesh),
        ensures
            b == is_skipped::<H>(self.mesh, self.skip(), self.pos()),
    {
        match self.status_prop {
            Some(prop) => {
                let s = prop.index(self.h).intersection(self.skip_bits);
                proof {
                    let x = prop.contents()[self.pos()].spec_bits();
                    let y = self.skip_bits.spec_bits();
                    assert((x & y != 0) == (y != 0 && x & 9u32 != 0)) by (bit_vector)
                        requires y == 9u32 || y == 0u32;
                }
                !s.is_empty()
            },
            None => false,
        }
    }

    /// If the iterator is on an item to be skipped, it increments the iterator until a
    /// non-skipped item is encountered or the list is exhausted.
    fn skip_fwd(&mut self)
        requires
            old(self).wf(),
        ensures
            final(self).wf(),
            final(self).mesh == old(self).mesh,
            final(self).skip() == old(self).skip(),
            old(self).pos() == INVALID_INDEX ==> final(self).pos() == INVALID_INDEX,
            old(self).pos() != INVALID_INDEX ==> {
                &&& final(self).pos() == INVALID_INDEX || final(self).pos() < item_count::<H>(old(self).mesh)
                &&& (if final(self).pos() == INVALID_INDEX {
                    Seq::<int>::empty()
                } else {
                    seq![final(self).pos()] + unskipped_from::<H>(old(self).mesh, old(self).skip(), final(self).pos() + 1)
                }) == unskipped_from::<H>(old(self).mesh, old(self).skip(), old(self).pos())
            },
    {
        if !self.h.is_valid() {
            return;
        }
        let len = H::len(self.mesh);
        let mut within_bounds = self.h.index() < len;
        while within_bounds && self.should_skip()
            invariant
                self.wf(),
                self.mesh == old(self).mesh,
                self.skip_bits == old(self).skip_bits,
                len == item_count::<H>(self.mesh),
                old(self).pos() < INVALID_INDEX,
                old(self).pos() <= self.pos(),
                self.pos() == old(self).pos() || self.pos() <= len,
                within_bounds == (self.pos() < len),
                unskipped_from::<H>(self.mesh, self.skip(), self.pos())
                    == unskipped_from::<H>(self.mesh, self.skip(), old(self).pos()),
            decreases len - self.pos(),
        {
            self.h.__increment();
            within_bounds = self.h.index() < len;
        }
        if !within_bounds {
            self.h.invalidate();
        }
    }

    /// If the iterator is on an item to be skipped, it decrements the iterator until a
    /// non-skipped item is encountered or the list is exhausted.
    fn skip_bwd(&mut self)
        requires
            old(self).wf(),
            old(self).pos() == INVALID_INDEX || old(self).pos() < item_count::<H>(old(self).mesh),
        ensures
            final(self).wf(),
            final(self).mesh == old(self).mesh,
            final(self).skip() == old(self).skip(),
            old(self).pos() == INVALID_INDEX ==> final(self).pos() == INVALID_INDEX,
            old(self).pos() != INVALID_INDEX ==> {
                &&& final(self).pos() == INVALID_INDEX || final(self).pos() < item_count::<H>(old(self).mesh)
                &&& (if final(self).pos() == INVALID_INDEX {
                    Seq::<int>::empty()
                } else {
                    seq![final(self).pos()] + unskipped_down::<H>(old(self).mesh, old(self).skip(), final(self).pos() - 1)
                }) == unskipped_down::<H>(old(self).mesh, old(self).skip(), old(self).pos())
            },
    {
        if !self.h.is_valid() {
            return;
        }
        let mut skip = self.should_skip();
        while skip && self.h.index() > 0
            invariant
                self.wf(),
                self.mesh == old(self).mesh,
                self.skip_bits == old(self).skip_bits,
                self.pos() <= old(self).pos() < item_count::<H>(self.mesh),
                skip == is_skipped::<H>(self.mesh, self.skip(), self.pos()),
                unskipped_down::<H>(self.mesh, self.skip(), self.pos())
                    == unskipped_down::<H>(self.mesh, self.skip(), old(self).pos()),
            decreases self.pos(),
        {
            self.h.__decrement();
            skip = self.should_skip();
        }
        if skip {
            proof {
                reveal_with_fuel(unskipped_down, 2);
            }
            self.h.invalidate();
        }
    }
}

/// Forward iterator through the items of one type of a mesh.
pub struct FwdIter<'a, H: MeshItemHandle>(IterBase<'a, H>);

impl<'a, H: MeshItemHandle> FwdIter<'a, H> {
    #[verifier::type_invariant]
    spec fn inv(self) -> bool {
        self.0.wf()
    }

    /// The mesh being iterated.
    pub closed spec fn spec_mesh(&self) -> Mesh {
        *self.0.mesh
    }

    /// Whether DELETED and HIDDEN items are skipped.
    pub closed spec fn spec_skip(&self) -> bool {
        self.0.skip()
    }

    /// The index of the item the iterator is on, or `INVALID_INDEX` once exhausted.
    pub closed spec fn pos(&self) -> int {
        self.0.pos()
    }

    /// The indices that the iterator will yield, in order.
    pub open spec fn remaining(&self) -> Seq<int> {
        if self.pos() == INVALID_INDEX {
            Seq::empty()
        } else {
            seq![self.pos()] + unskipped_from::<H>(&self.spec_mesh(), self.spec_skip(), self.pos() + 1)
        }
    }

    /// Initializes a forward iterator through the mesh starting at the given handle. If `skip`
    /// is true and the mesh stores a status property for the item type, the iterator skips all
    /// DELETED or HIDDEN items.
    pub fn new(mesh: &'a Mesh, handle: H, skip: bool) -> (r: FwdIter<'a, H>)
        requires
            can_iterate::<H>(mesh),
        ensures
            r.spec_mesh() == *mesh,
            r.spec_skip() == skip,
            r.remaining() == (if handle.spec_index() == INVALID_INDEX {
                Seq::<int>::empty()
            } else if skip {
                unskipped_from::<H>(mesh, skip, handle.spec_index() as int)
            } else {
                seq![handle.spec_index() as int] + unskipped_from::<H>(mesh, skip, handle.spec_index() + 1)
            }),
    {
        let mut base = IterBase::new(mesh, handle, skip);
        if skip {
            base.skip_fwd();
        }
        FwdIter(base)
    }

    /// Yields the current item and moves to the next one that is not skipped, or returns `None`
    /// once exhausted.
    pub fn next(&mut self) -> (r: Option<H>)
        ensures
            final(self).spec_mesh() == old(self).spec_mesh(),
            final(self).spec_skip() == old(self).spec_skip(),
            old(self).remaining().len() == 0 ==> r is None && final(self).remaining() == old(self).remaining(),
            old(self).remaining().len() > 0 ==> {
                &&& r matches Some(h) && h.spec_index() == old(self).remaining()[0]
                &&& final(self).remaining() == old(self).remaining().drop_first()
            },
    {
        proof { use_type_invariant(&*self); }
        let mut base = self.0;
        let res = base.h.to_option();
        if base.h.is_valid() {
            base.h.__increment();
            base.skip_fwd();
        }
        *self = FwdIter(base);
        res
    }
}


/// Backward iterator through the items of one type of a mesh.
pub struct BwdIter<'a, H: MeshItemHandle>(IterBase<'a, H>);

impl<'a, H: MeshItemHandle> BwdIter<'a, H> {
    #[verifier::type_invariant]
    spec fn inv(self) -> bool {
        &&& self.0.wf()
        &&& self.0.pos() == INVALID_INDEX || self.0.pos() <= item_count::<H>(self.0.mesh)
    }

    /// The mesh being iterated.
    pub closed spec fn spec_mesh(&self) -> Mesh {
        *self.0.mesh
    }

    /// Whether DELETED and HIDDEN items are skipped.
    pub closed spec fn spec_skip(&self) -> bool {
        self.0.skip()
    }

    /// The index of the item the iterator is on, or `INVALID_INDEX` once exhausted.
    pub closed spec fn pos(&self) -> int {
        self.0.pos()
    }

    /// The indices that the iterator will yield, in order.
    pub open spec fn remaining(&self) -> Seq<int> {
        if self.pos() == INVALID_INDEX {
            Seq::empty()
        } else {
            seq![self.pos()] + unskipped_down::<H>(&self.spec_mesh(), self.spec_skip(), self.pos() - 1)
        }
    }

    /// Initializes a backward iterator through the mesh starting at the given handle. If `skip`
    /// is true and the mesh stores a status property for the item type, the iterator skips all
    /// DELETED or HIDDEN items.
    pub fn new(mesh: &'a Mesh, handle: H, skip: bool) -> (r: BwdIter<'a, H>)
        requires
            can_iterate::<H>(mesh),
            handle.spec_index() != INVALID_INDEX ==> if skip {
                handle.spec_index() < item_count::<H>(mesh)
            } else {
                handle.spec_index() <= item_count::<H>(mesh)
            },
        ensures
            r.spec_mesh() == *mesh,
            r.spec_skip() == skip,
            r.remaining() == (if handle.spec_index() == INVALID_INDEX {
                Seq::<int>::empty()
            } else if skip {
                unskipped_down::<H>(mesh, skip, handle.spec_index() as int)
            } else {
                seq![handle.spec_index() as int] + unskipped_down::<H>(mesh, skip, handle.spec_index() - 1)
            }),
    {
        let mut base = IterBase::new(mesh, handle, skip);
        if skip {
            base.skip_bwd();
        }
        BwdIter(base)
    }

    /// Yields the current item and moves to the previous one that is not skipped, or returns
    /// `None` once exhausted.
    pub fn next(&mut self) -> (r: Option<H>)
        ensures
            final(self).spec_mesh() == old(self).spec_mesh(),
            final(self).spec_skip() == old(self).spec_skip(),
            old(self).remaining().len() == 0 ==> r is None && final(self).remaining() == old(self).remaining(),
            old(self).remaining().len() > 0 ==> {
                &&& r matches Some(h) && h.spec_index() == old(self).remaining()[0]
                &&& final(self).remaining() == old(self).remaining().drop_first()
            },
    {
        proof { use_type_invariant(&*self); }
        let mut base = self.0;
        let res = base.h.to_option();
        if base.h.is_valid() {
            base.h.__decrement();
            proof {
                reveal_with_fuel(unskipped_down, 2);
            }
            base.skip_bwd();
        }
        *self = BwdIter(base);
        res
    }
}


/// A forward iteration yields exactly the items of type `H` from `k` on that are not skipped,
/// each once, in increasing order.
pub proof fn lemma_unskipped_from<H: MeshItemHandle>(m: &Mesh, skip: bool, k: int)
    requires
        0 <= k,
    ensures
        forall|j: int| #[trigger] unskipped_from::<H>(m, skip, k).contains(j)
            <==> (k <= j < item_count::<H>(m) && !is_skipped::<H>(m, skip, j)),
        forall|a: int, b: int| 0 <= a < b < unskipped_from::<H>(m, skip, k).len()
            ==> unskipped_from::<H>(m, skip, k)[a] < unskipped_from::<H>(m, skip, k)[b],
    decreases item_count::<H>(m) - k,
{
    let s = unskipped_from::<H>(m, skip, k);
    if k < item_count::<H>(m) {
        lemma_unskipped_from::<H>(m, skip, k + 1);
        let rest = unskipped_from::<H>(m, skip, k + 1);
        assert forall|a: int| 0 <= a < rest.len() implies k < #[trigger] rest[a] by {
            assert(rest.contains(rest[a]));
        }
        if !is_skipped::<H>(m, skip, k) {
            assert(s == seq![k] + rest);
            assert forall|j: int| #[trigger] s.contains(j)
                <==> (k <= j < item_count::<H>(m) && !is_skipped::<H>(m, skip, j)) by {
                if s.contains(j) {
                    let i = choose|i: int| 0 <= i < s.len() && s[i] == j;
                    if i > 0 {
                        assert(rest[i - 1] == j);
                        assert(rest.contains(j));
                    }
                }
                if k <= j < item_count::<H>(m) && !is_skipped::<H>(m, skip, j) {
                    if j == k {
                        assert(s[0] == j);
                    } else {
                        assert(rest.contains(j));
                        let i = choose|i: int| 0 <= i < rest.len() && rest[i] == j;
                        assert(s[i + 1] == j);
                    }
                }
            }
            assert forall|a: int, b: int| 0 <= a < b < s.len() implies s[a] < s[b] by {
                if a > 0 {
                    assert(s[a] == rest[a - 1]);
                }
                assert(s[b] == rest[b - 1]);
            }
        }
    }
}

/// A backward iteration yields exactly the items of type `H` from `k` down to 0 that are not
/// skipped, each once, in decreasing order.
pub proof fn lemma_unskipped_down<H: MeshItemHandle>(m: &Mesh, skip: bool, k: int)
    ensures
        forall|j: int| #[trigger] unskipped_down::<H>(m, skip, k).contains(j)
            <==> (0 <= j <= k && !is_skipped::<H>(m, skip, j)),
        forall|a: int, b: int| 0 <= a < b < unskipped_down::<H>(m, skip, k).len()
            ==> unskipped_down::<H>(m, skip, k)[a] > unskipped_down::<H>(m, skip, k)[b],
    decreases k + 1,
{
    let s = unskipped_down::<H>(m, skip, k);
    if k >= 0 {
        lemma_unskipped_down::<H>(m, skip, k - 1);
        let rest = unskipped_down::<H>(m, skip, k - 1);
        assert forall|a: int| 0 <= a < rest.len() implies #[trigger] rest[a] < k by {
            assert(rest.contains(rest[a]));
        }
        if !is_skipped::<H>(m, skip, k) {
            assert(s == seq![k] + rest);
            assert forall|j: int| #[trigger] s.contains(j)
                <==> (0 <= j <= k && !is_skipped::<H>(m, skip, j)) by {
                if s.contains(j) {
                    let i = choose|i: int| 0 <= i < s.len() && s[i] == j;
                    if i > 0 {
                        assert(rest[i - 1] == j);
                        assert(rest.contains(j));
                    }
                }
                if 0 <= j <= k && !is_skipped::<H>(m, skip, j) {
                    if j == k {
                        assert(s[0] == j);
                    } else {
                        assert(rest.contains(j));
                        let i = choose|i: int| 0 <= i < rest.len() && rest[i] == j;
                        assert(s[i + 1] == j);
                    }
                }
            }
            assert forall|a: int, b: int| 0 <= a < b < s.len() implies s[a] > s[b] by {
                if a > 0 {
                    assert(s[a] == rest[a - 1]);
                }
                assert(s[b] == rest[b - 1]);
            }
        }
    }
}

/// Without skipping, a forward iteration from `k` yields every item `k, k + 1, ...` up to the
/// last one.
pub proof fn lemma_unskipped_from_all<H: MeshItemHandle>(m: &Mesh, k: int)
    requires
        0 <= k <= item_count::<H>(m),
    ensures
        unskipped_from::<H>(m, false, k) == Seq::new((item_count::<H>(m) - k) as nat, |i: int| k + i),
    decreases item_count::<H>(m) - k,
{
    if k < item_count::<H>(m) {
        lemma_unskipped_from_all::<H>(m, k + 1);
        assert(unskipped_from::<H>(m, false, k)
            =~= Seq::new((item_count::<H>(m) - k) as nat, |i: int| k + i));
    } else {
        assert(unskipped_from::<H>(m, false, k) =~= Seq::new(0, |i: int| k + i));
    }
}

/// Without skipping, a backward iteration from `k` yields every item `k, k - 1, ..., 0`.
pub proof fn lemma_unskipped_down_all<H: MeshItemHandle>(m: &Mesh, k: int)
    requires
        -1 <= k,
    ensures
        unskipped_down::<H>(m, false, k) == Seq::new((k + 1) as nat, |i: int| k - i),
    decreases k + 1,
{
    if k >= 0 {
        lemma_unskipped_down_all::<H>(m, k - 1);
        assert(unskipped_down::<H>(m, false, k) =~= Seq::new((k + 1) as nat, |i: int| k - i));
    } else {
        assert(unskipped_down::<H>(m, false, k) =~= Seq::new(0, |i: int| k - i));
    }
}

}
