//! `Binary` implementations for sequences of values: the dynamic-length `Vec` and the
//! fixed-length arrays used for geometry vectors. Items are stored one after another.

use vstd::prelude::*;
use crate::io::binary::traits::{store_result, Binary, Endian, UNKNOWN_SIZE};
use crate::io::result::{Error, Result};

verus! {

/// The models of the items of `s`.
pub open spec fn models_of<T: Binary>(s: Seq<T>) -> Seq<T::Model> {
    Seq::new(s.len(), |i: int| s[i].model())
}

/// The bytes that storing items with models `ms` one after another writes, stopping at the first
/// item that fails to store, and that item's error.
pub open spec fn store_items<T: Binary>(ms: Seq<T::Model>, endian: Endian) -> (Seq<u8>, Option<Error>)
    decreases ms.len(),
{
    if ms.len() == 0 {
        (Seq::empty(), None)
    } else {
        let (b, err) = store_items::<T>(ms.drop_last(), endian);
        if err is Some {
            (b, err)
        } else {
            let (b2, err2) = T::spec_store(ms.last(), endian);
            (b + b2, err2)
        }
    }
}

/// The models after restoring items with models `ms` one after another from `input`, each from
/// where the previous one stopped, and the total number of bytes read or the first error. Items
/// after a failed one keep their models.
pub open spec fn restore_items<T: Binary>(ms: Seq<T::Model>, input: Seq<u8>, endian: Endian) -> (Seq<T::Model>, Result<usize>)
    decreases ms.len(),
{
    if ms.len() == 0 {
        (Seq::empty(), Ok(0))
    } else {
        let (head, r) = restore_items::<T>(ms.drop_last(), input, endian);
        match r {
            Err(e) => (head.push(ms.last()), Err(e)),
            Ok(n) => {
                let (m, r2) = T::spec_restore(ms.last(), input.skip(n as int), endian);
                (head.push(m), match r2 {
                    Ok(k) => Ok((n + k) as usize),
                    Err(e) => Err(e),
                })
            },
        }
    }
}

/// The total size of items with models `ms`.
pub open spec fn sum_sizes<T: Binary>(ms: Seq<T::Model>) -> nat
    decreases ms.len(),
{
    if ms.len() == 0 {
        0
    } else {
        sum_sizes::<T>(ms.drop_last()) + T::spec_size_of_value(ms.last())
    }
}

proof fn lemma_sum_sizes_prefix<T: Binary>(ms: Seq<T::Model>, i: int)
    requires
        0 <= i <= ms.len(),
    ensures
        sum_sizes::<T>(ms.take(i)) <= sum_sizes::<T>(ms),
    decreases ms.len(),
{
    if i < ms.len() {
        assert(ms.drop_last().take(i) =~= ms.take(i));
        lemma_sum_sizes_prefix::<T>(ms.drop_last(), i);
    } else {
        assert(ms.take(i) =~= ms);
    }
}

/// Items with models `ms` can be restored in place of items with models `prev`: there are as
/// many, and each can be restored in place of the one at its position.
pub open spec fn restorable_items<T: Binary>(prev: Seq<T::Model>, ms: Seq<T::Model>) -> bool {
    &&& prev.len() == ms.len()
    &&& forall|i: int| 0 <= i < ms.len() ==> #[trigger] T::restorable(prev[i], ms[i])
}

/// Restoring items one after another from the bytes that storing them wrote, followed by any
/// other bytes, gives them back and reads exactly the bytes that were stored.
proof fn lemma_items_store_restore<T: Binary>(ms: Seq<T::Model>, prev: Seq<T::Model>, rest: Seq<u8>, endian: Endian)
    requires
        store_items::<T>(ms, endian).1 is None,
        restorable_items::<T>(prev, ms),
        store_items::<T>(ms, endian).0.len() + rest.len() <= usize::MAX,
    ensures
        restore_items::<T>(prev, store_items::<T>(ms, endian).0 + rest, endian)
            == (ms, Ok::<usize, Error>(store_items::<T>(ms, endian).0.len() as usize)),
    decreases ms.len(),
{
    if ms.len() == 0 {
        assert(ms =~= Seq::<T::Model>::empty());
    } else {
        let head = store_items::<T>(ms.drop_last(), endian).0;
        let tail = T::spec_store(ms.last(), endian).0;
        assert(store_items::<T>(ms.drop_last(), endian).1 is None);
        assert(restorable_items::<T>(prev.drop_last(), ms.drop_last())) by {
            assert forall|i: int| 0 <= i < ms.drop_last().len() implies
                #[trigger] T::restorable(prev.drop_last()[i], ms.drop_last()[i]) by {
                assert(T::restorable(prev[i], ms[i]));
            }
        }
        assert(T::restorable(prev[ms.len() - 1], ms[ms.len() - 1]));
        let input = head + tail + rest;
        assert(input =~= head + (tail + rest));
        lemma_items_store_restore::<T>(ms.drop_last(), prev.drop_last(), tail + rest, endian);
        assert(input.skip(head.len() as int) =~= tail + rest);
        T::lemma_store_restore(ms.last(), prev.last(), rest, endian);
        assert(ms.drop_last().push(ms.last()) =~= ms);
    }
}

/// Appends the items of `items` one after another, stopping at the first that fails.
fn store_all<T: Binary>(items: &[T], out: &mut Vec<u8>, endian: Endian) -> (r: Result<usize>)
    ensures
        final(out)@ == old(out)@ + store_items::<T>(models_of(items@), endian).0,
        r == store_result(store_items::<T>(models_of(items@), endian)),
{
    let ghost ms = models_of(items@);
    let n = items.len();
    let start = out.len();
    let mut i: usize = 0;
    assert(ms.take(0) =~= Seq::<T::Model>::empty());
    while i < n
        invariant
            i <= n,
            n == items@.len(),
            ms == models_of(items@),
            start == old(out)@.len(),
            out@ == old(out)@ + store_items::<T>(ms.take(i as int), endian).0,
            store_items::<T>(ms.take(i as int), endian).1 is None,
        decreases n - i,
    {
        let ghost before = out@;
        let res = items[i].store(out, endian);
        proof {
            assert(ms.take(i + 1).drop_last() =~= ms.take(i as int));
            assert(ms.take(i + 1).last() == items@[i as int].model());
        }
        match res {
            Ok(_) => {},
            Err(e) => {
                proof {
                    assert(ms.take(i + 1).drop_last() =~= ms.take(i as int));
                    lemma_store_items_stops::<T>(ms, (i + 1) as int, endian);
                }
                return Err(e);
            },
        }
        i = i + 1;
    }
    assert(ms.take(n as int) =~= ms);
    let total = out.len() - start;
    Ok(total)
}

/// Once storing fails, the items after the failing one do not change what is written.
proof fn lemma_store_items_stops<T: Binary>(ms: Seq<T::Model>, i: int, endian: Endian)
    requires
        0 < i <= ms.len(),
        store_items::<T>(ms.take(i), endian).1 is Some,
    ensures
        store_items::<T>(ms, endian) == store_items::<T>(ms.take(i), endian),
    decreases ms.len() - i,
{
    if i == ms.len() {
        assert(ms.take(i) =~= ms);
    } else {
        assert(ms.drop_last().take(i) =~= ms.take(i));
        lemma_store_items_stops::<T>(ms.drop_last(), i, endian);
    }
}

impl<T: Binary> Binary for Vec<T> {
    type Model = Seq<T::Model>;

    open spec fn model(&self) -> Seq<T::Model> {
        models_of(self@)
    }

    open spec fn spec_streamable() -> bool {
        T::spec_streamable()
    }

    open spec fn spec_size_of_type() -> usize {
        UNKNOWN_SIZE
    }

    open spec fn spec_size_of_value(m: Seq<T::Model>) -> nat {
        sum_sizes::<T>(m)
    }

    open spec fn spec_store(m: Seq<T::Model>, endian: Endian) -> (Seq<u8>, Option<Error>) {
        store_items::<T>(m, endian)
    }

    open spec fn spec_restore(m: Seq<T::Model>, input: Seq<u8>, endian: Endian) -> (Seq<T::Model>, Result<usize>) {
        restore_items::<T>(m, input, endian)
    }

    open spec fn restorable(prev: Seq<T::Model>, m: Seq<T::Model>) -> bool {
        restorable_items::<T>(prev, m)
    }

    proof fn lemma_store_restore(m: Seq<T::Model>, prev: Seq<T::Model>, rest: Seq<u8>, endian: Endian) {
        lemma_items_store_restore::<T>(m, prev, rest, endian);
    }

    fn is_streamable() -> (b: bool) {
        T::is_streamable()
    }

    fn size_of_type() -> (n: usize) {
        UNKNOWN_SIZE
    }

    fn size_of_value(&self) -> (n: usize) {
        let ghost ms = self.model();
        let n = self.len();
        let mut total: usize = 0;
        let mut i: usize = 0;
        assert(ms.take(0) =~= Seq::<T::Model>::empty());
        while i < n
            invariant
                i <= n,
                n == self@.len(),
                ms == models_of(self@),
                sum_sizes::<T>(ms) <= usize::MAX,
                total == sum_sizes::<T>(ms.take(i as int)),
            decreases n - i,
        {
            proof {
                assert(ms.take(i + 1).drop_last() =~= ms.take(i as int));
                lemma_sum_sizes_prefix::<T>(ms, i + 1);
            }
            let s = self[i].size_of_value();
            total = total + s;
            i = i + 1;
        }
        assert(ms.take(n as int) =~= ms);
        total
    }

    fn store(&self, out: &mut Vec<u8>, endian: Endian) -> (r: Result<usize>) {
        store_all(self.as_slice(), out, endian)
    }

    /// Reads exactly as many items as `self` already holds.
    fn restore(&mut self, input: &[u8], endian: Endian) -> (r: Result<usize>) {
        let ghost ms = self.model();
        let n = self.len();
        let mut rest: Vec<T> = Vec::new();
        core::mem::swap(self, &mut rest);
        let ghost items = rest@;
        let mut pos: usize = 0;
        let mut i: usize = 0;
        assert(ms.take(0) =~= Seq::<T::Model>::empty());
        assert(self.model() =~= Seq::<T::Model>::empty());
        while i < n
            invariant
                i <= n,
                n == items.len(),
                ms == models_of(items),
                ms == old(self).model(),
                rest@ == items.skip(i as int),
                pos <= input@.len(),
                (self.model(), Ok::<usize, Error>(pos)) == restore_items::<T>(ms.take(i as int), input@, endian),
            decreases n - i,
        {
            let mut x = rest.remove(0);
            let tail = vstd::slice::slice_subrange(input, pos, input.len());
            proof {
                assert(ms.take(i + 1).drop_last() =~= ms.take(i as int));
                assert(ms.take(i + 1).last() == x.model());
                assert(tail@ =~= input@.skip(pos as int));
                assert(items.skip(i as int).drop_first() =~= items.skip(i + 1));
            }
            let ghost before = self.model();
            match x.restore(tail, endian) {
                Ok(k) => {
                    self.push(x);
                    pos = pos + k;
                    proof {
                        assert(self.model() =~= before.push(x.model()));
                    }
                },
                Err(e) => {
                    self.push(x);
                    proof {
                        assert(self.model() =~= before.push(x.model()));
                    }
                    let ghost done = self.model();
                    self.append(&mut rest);
                    proof {
                        assert(restore_items::<T>(ms.take(i + 1), input@, endian) == (done, Err::<usize, Error>(e)));
                        lemma_restore_items_rest::<T>(ms, (i + 1) as int, input@, endian);
                        assert(items.skip(i as int).remove(0) =~= items.skip(i + 1));
                        assert(self.model() =~= done + models_of(items.skip(i + 1)));
                        assert(models_of(items.skip(i + 1)) =~= ms.skip(i + 1));
                    }
                    return Err(e);
                },
            }
            i = i + 1;
        }
        assert(ms.take(n as int) =~= ms);
        Ok(pos)
    }
}

/// Once restoring fails, the items after the failing one keep their models.
proof fn lemma_restore_items_rest<T: Binary>(ms: Seq<T::Model>, i: int, input: Seq<u8>, endian: Endian)
    requires
        0 < i <= ms.len(),
        restore_items::<T>(ms.take(i), input, endian).1 is Err,
    ensures
        restore_items::<T>(ms, input, endian) == (restore_items::<T>(ms.take(i), input, endian).0 + ms.skip(i), restore_items::<T>(ms.take(i), input, endian).1),
    decreases ms.len() - i,
{
    if i == ms.len() {
        assert(ms.take(i) =~= ms);
        assert(ms.skip(i) =~= Seq::<T::Model>::empty());
        assert(restore_items::<T>(ms, input, endian).0 + ms.skip(i) =~= restore_items::<T>(ms, input, endian).0);
    } else {
        assert(ms.drop_last().take(i) =~= ms.take(i));
        lemma_restore_items_rest::<T>(ms.drop_last(), i, input, endian);
        let r = restore_items::<T>(ms.take(i), input, endian);
        assert(r.0 + ms.drop_last().skip(i) + seq![ms.last()] =~= r.0 + ms.skip(i));
    }
}

/// The size of `n` values of `size` bytes each, or `UNKNOWN_SIZE` if that is not known or does
/// not fit in `usize`.
pub open spec fn array_size(n: nat, size: usize) -> usize {
    if size == UNKNOWN_SIZE || n * size > usize::MAX {
        UNKNOWN_SIZE
    } else {
        (n * size) as usize
    }
}

/// Fixed-length arrays: geometry vectors such as 2-, 3-, 4- and 6-vectors of integers.
impl<T: Binary + Copy, const N: usize> Binary for [T; N] {
    type Model = Seq<T::Model>;

    open spec fn model(&self) -> Seq<T::Model> {
        models_of(self@)
    }

    open spec fn spec_streamable() -> bool {
        T::spec_streamable()
    }

    open spec fn spec_size_of_type() -> usize {
        array_size(N as nat, T::spec_size_of_type())
    }

    open spec fn spec_size_of_value(m: Seq<T::Model>) -> nat {
        sum_sizes::<T>(m)
    }

    open spec fn spec_store(m: Seq<T::Model>, endian: Endian) -> (Seq<u8>, Option<Error>) {
        store_items::<T>(m, endian)
    }

    open spec fn spec_restore(m: Seq<T::Model>, input: Seq<u8>, endian: Endian) -> (Seq<T::Model>, Result<usize>) {
        restore_items::<T>(m, input, endian)
    }

    open spec fn restorable(prev: Seq<T::Model>, m: Seq<T::Model>) -> bool {
        restorable_items::<T>(prev, m)
    }

    proof fn lemma_store_restore(m: Seq<T::Model>, prev: Seq<T::Model>, rest: Seq<u8>, endian: Endian) {
        lemma_items_store_restore::<T>(m, prev, rest, endian);
    }

    fn is_streamable() -> (b: bool) {
        T::is_streamable()
    }

    fn size_of_type() -> (n: usize) {
        let size = T::size_of_type();
        if size == UNKNOWN_SIZE {
            return UNKNOWN_SIZE;
        }
        match N.checked_mul(size) {
            Some(total) => total,
            None => UNKNOWN_SIZE,
        }
    }

    fn size_of_value(&self) -> (n: usize) {
        let ghost ms = self.model();
        let mut total: usize = 0;
        let mut i: usize = 0;
        assert(ms.take(0) =~= Seq::<T::Model>::empty());
        while i < N
            invariant
                i <= N,
                N == self@.len(),
                ms == models_of(self@),
                sum_sizes::<T>(ms) <= usize::MAX,
                total == sum_sizes::<T>(ms.take(i as int)),
            decreases N - i,
        {
            proof {
                assert(ms.take(i + 1).drop_last() =~= ms.take(i as int));
                lemma_sum_sizes_prefix::<T>(ms, i + 1);
            }
            let s = self[i].size_of_value();
            total = total + s;
            i = i + 1;
        }
        assert(ms.take(N as int) =~= ms);
        total
    }

    fn store(&self, out: &mut Vec<u8>, endian: Endian) -> (r: Result<usize>) {
        store_all(self.as_slice(), out, endian)
    }

    fn restore(&mut self, input: &[u8], endian: Endian) -> (r: Result<usize>) {
        let ghost ms = self.model();
        let ghost items = self@;
        let mut pos: usize = 0;
        let mut i: usize = 0;
        assert(ms.take(0) =~= Seq::<T::Model>::empty());
        assert(models_of(self@).take(0) =~= Seq::<T::Model>::empty());
        while i < N
            invariant
                i <= N,
                N == items.len(),
                N == self@.len(),
                ms == models_of(items),
                ms == old(self).model(),
                pos <= input@.len(),
                forall|j: int| i <= j < N ==> self@[j] == items[j],
                (models_of(self@).take(i as int), Ok::<usize, Error>(pos)) == restore_items::<T>(ms.take(i as int), input@, endian),
            decreases N - i,
        {
            let mut x = self[i];
            let tail = vstd::slice::slice_subrange(input, pos, input.len());
            proof {
                assert(ms.take(i + 1).drop_last() =~= ms.take(i as int));
                assert(ms.take(i + 1).last() == x.model());
                assert(tail@ =~= input@.skip(pos as int));
            }
            let ghost before = models_of(self@).take(i as int);
            let res = x.restore(tail, endian);
            self[i] = x;
            proof {
                assert(models_of(self@).take(i + 1) =~= before.push(x.model()));
            }
            match res {
                Ok(k) => {
                    pos = pos + k;
                },
                Err(e) => {
                    proof {
                        let done = models_of(self@).take(i + 1);
                        assert(restore_items::<T>(ms.take(i + 1), input@, endian) == (done, Err::<usize, Error>(e)));
                        lemma_restore_items_rest::<T>(ms, (i + 1) as int, input@, endian);
                        assert(models_of(self@) =~= done + ms.skip(i + 1));
                    }
                    return Err(e);
                },
            }
            i = i + 1;
        }
        assert(ms.take(N as int) =~= ms);
        assert(models_of(self@).take(N as int) =~= models_of(self@));
        Ok(pos)
    }
}

}
