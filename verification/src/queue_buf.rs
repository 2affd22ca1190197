//! Fixed-capacity circular buffer with O(1) push, insertion-order snapshot
//! extraction and windowed reads over the most recent entries.
//!
//! The buffer backs the streaming audio statistics: each push overwrites the
//! oldest slot once the buffer is full, `extract` linearizes the logical
//! contents oldest-first, and `window` reads the `n` most recent entries,
//! backfilling a default while the buffer is still filling up.

use vstd::prelude::*;

verus! {

/// The logical contents after one push: append while below capacity,
/// otherwise drop the oldest entry and append.
pub open spec fn ring_push<T>(s: Seq<T>, cap: nat, v: T) -> Seq<T> {
    if s.len() < cap {
        s.push(v)
    } else if cap == 0 {
        s
    } else {
        s.subrange(1, s.len() as int).push(v)
    }
}

/// The logical contents after pushing `vals`, in order, into an empty buffer
/// of capacity `cap`.
pub open spec fn ring_fold<T>(cap: nat, vals: Seq<T>) -> Seq<T>
    decreases vals.len(),
{
    if vals.len() == 0 {
        Seq::empty()
    } else {
        ring_push(ring_fold(cap, vals.drop_last()), cap, vals.last())
    }
}

/// Law: after any sequence of `N` pushes into an empty buffer of capacity
/// `C`, the logical contents are exactly the last `min(N, C)` pushed values
/// in insertion order; in particular their count is `min(N, C)`, and the
/// buffer is saturated if and only if `N >= C`.
pub proof fn lemma_ring_fold_window<T>(cap: nat, vals: Seq<T>)
    ensures
        ring_fold(cap, vals).len() == vstd::math::min(vals.len() as int, cap as int),
        ring_fold(cap, vals) == vals.subrange(
            vals.len() - vstd::math::min(vals.len() as int, cap as int),
            vals.len() as int,
        ),
        (ring_fold(cap, vals).len() == cap) <==> (vals.len() >= cap),
    decreases vals.len(),
{
    if vals.len() == 0 {
        assert(ring_fold(cap, vals) =~= vals.subrange(0, 0));
    } else {
        let prev = vals.drop_last();
        lemma_ring_fold_window(cap, prev);
        let s = ring_fold(cap, prev);
        let n = vals.len() as int;
        if s.len() < cap {
            assert(ring_push(s, cap, vals.last()) =~= vals.subrange(
                n - vstd::math::min(n, cap as int),
                n,
            ));
        } else if cap == 0 {
            assert(ring_push(s, cap, vals.last()) =~= vals.subrange(n, n));
        } else {
            assert(ring_push(s, cap, vals.last()) =~= vals.subrange(n - cap, n));
        }
    }
}

/// Fixed-capacity circular buffer. The capacity is the length of the backing
/// vector handed to `new`; the fill count saturates at the capacity.
pub struct QueueBuf<T> {
    pos: usize,
    length: usize,
    vec: Vec<T>,
}

impl<T> QueueBuf<T> {
    /// Capacity of the buffer: how many entries it retains.
    pub closed spec fn cap(self) -> nat {
        self.vec@.len()
    }

    /// The backing storage, in slot order (not logical order).
    pub closed spec fn slots(self) -> Seq<T> {
        self.vec@
    }

    /// Structural invariant: the write cursor and fill count stay within the
    /// capacity, and before the first wrap-around the cursor equals the fill
    /// count.
    pub closed spec fn wf(self) -> bool {
        &&& self.length <= self.vec@.len()
        &&& self.pos <= self.vec@.len()
        &&& (self.length < self.vec@.len() ==> self.pos == self.length)
        &&& (self.vec@.len() > 0 && self.length == self.vec@.len() ==> 1 <= self.pos)
    }

    /// The logical contents, oldest first.
    pub closed spec fn contents(self) -> Seq<T> {
        if self.length < self.vec@.len() {
            self.vec@.subrange(0, self.length as int)
        } else {
            self.vec@.subrange(self.pos as int, self.vec@.len() as int) + self.vec@.subrange(
                0,
                self.pos as int,
            )
        }
    }

    proof fn lemma_contents_len(self)
        requires
            self.wf(),
        ensures
            self.contents().len() == self.length,
    {
    }
}

impl<T: Copy> QueueBuf<T> {
    /// A fresh buffer over the given backing storage; logically empty, with
    /// capacity `buf.len()`.
    pub fn new(buf: Vec<T>) -> (q: QueueBuf<T>)
        ensures
            q.wf(),
            q.cap() == buf@.len(),
            q.contents() == Seq::<T>::empty(),
    {
        let q = QueueBuf { pos: 0usize, length: 0usize, vec: buf };
        proof {
            assert(q.contents() =~= Seq::<T>::empty());
        }
        q
    }

    /// How many entries the buffer retains.
    pub fn capacity(&self) -> (c: usize)
        ensures
            c == self.cap(),
    {
        self.vec.len()
    }

    /// How many entries have been filled so far (saturates at the capacity).
    pub fn len(&self) -> (n: usize)
        requires
            self.wf(),
        ensures
            n == self.contents().len(),
    {
        proof {
            self.lemma_contents_len();
        }
        self.length
    }

    /// True once every slot has been written at least once.
    pub fn is_saturated(&self) -> (r: bool)
        requires
            self.wf(),
        ensures
            r == (self.contents().len() == self.cap()),
    {
        proof {
            self.lemma_contents_len();
        }
        self.length >= self.vec.len()
    }

    /// O(1) push: overwrites the oldest slot once the buffer is full. On a
    /// zero-capacity buffer there is no slot to write, so nothing changes.
    pub fn push(&mut self, val: T)
        requires
            old(self).wf(),
        ensures
            final(self).wf(),
            final(self).cap() == old(self).cap(),
            final(self).contents() == ring_push(old(self).contents(), old(self).cap(), val),
    {
        if self.vec.len() == 0 {
            return ;
        }
        if self.pos >= self.vec.len() {
            self.pos = 0;
        }
        self.vec.set(self.pos, val);
        self.pos = self.pos + 1;
        if self.length < self.vec.len() {
            self.length = self.length + 1;
        }
        proof {
            let cap = old(self).cap() as int;
            if old(self).length < old(self).cap() {
                assert(self.contents() =~= ring_push(old(self).contents(), old(self).cap(), val));
            } else if old(self).pos < old(self).cap() {
                assert(self.contents() =~= ring_push(old(self).contents(), old(self).cap(), val));
            } else {
                assert(old(self).contents() =~= old(self).vec@.subrange(0, cap));
                assert(self.contents() =~= ring_push(old(self).contents(), old(self).cap(), val));
            }
        }
    }

    /// Snapshot of the logical contents, oldest first: the entries pushed so
    /// far while below capacity, and once saturated the suffix of the backing
    /// storage from the cursor followed by its prefix up to the cursor.
    pub fn extract(&self) -> (out: Vec<T>)
        requires
            self.wf(),
        ensures
            out@ == self.contents(),
    {
        let mut out: Vec<T> = Vec::new();
        if self.length < self.vec.len() {
            let mut i: usize = 0;
            while i < self.length
                invariant
                    self.wf(),
                    self.length < self.vec@.len(),
                    i <= self.length,
                    out@ == self.vec@.subrange(0, i as int),
                decreases self.length - i,
            {
                out.push(self.vec[i]);
                proof {
                    assert(out@ =~= self.vec@.subrange(0, i + 1));
                }
                i = i + 1;
            }
            proof {
                assert(out@ =~= self.contents());
            }
        } else {
            let mut i: usize = self.pos;
            while i < self.vec.len()
                invariant
                    self.wf(),
                    self.length == self.vec@.len(),
                    self.pos <= i <= self.vec@.len(),
                    out@ == self.vec@.subrange(self.pos as int, i as int),
                decreases self.vec@.len() - i,
            {
                out.push(self.vec[i]);
                proof {
                    assert(out@ =~= self.vec@.subrange(self.pos as int, i + 1));
                }
                i = i + 1;
            }
            let mut j: usize = 0;
            while j < self.pos
                invariant
                    self.wf(),
                    self.length == self.vec@.len(),
                    j <= self.pos,
                    out@ == self.vec@.subrange(self.pos as int, self.vec@.len() as int)
                        + self.vec@.subrange(0, j as int),
                decreases self.pos - j,
            {
                out.push(self.vec[j]);
                proof {
                    assert(out@ =~= self.vec@.subrange(self.pos as int, self.vec@.len() as int)
                        + self.vec@.subrange(0, j + 1));
                }
                j = j + 1;
            }
        }
        out
    }

    /// Backing-store slot of the `index`-th most recent entry, or `None` when
    /// fewer than `index + 1` entries have been filled.
    pub fn index_to_vec(&self, index: usize) -> (r: Option<usize>)
        requires
            self.wf(),
        ensures
            match r {
                None => index >= self.contents().len(),
                Some(j) => index < self.contents().len() && j < self.cap() && self.slots()[j as int]
                    == self.contents()[self.contents().len() - 1 - index],
            },
    {
        proof {
            self.lemma_contents_len();
        }
        if index >= self.length {
            return None;
        }
        if index < self.pos {
            Some(self.pos - index - 1)
        } else {
            Some(self.vec.len() - 1 - index + self.pos)
        }
    }

    /// The `index`-th most recent entry, newest at `index` 0; `None` when
    /// fewer than `index + 1` entries have been filled.
    pub fn get(&self, index: usize) -> (r: Option<T>)
        requires
            self.wf(),
        ensures
            match r {
                None => index >= self.contents().len(),
                Some(v) => index < self.contents().len() && v == self.contents()[self.contents().len() - 1 - index],
            },
    {
        match self.index_to_vec(index) {
            Some(e) => Some(self.vec[e]),
            None => None,
        }
    }

    /// The `last_n` most recent entries, newest first; positions not yet
    /// filled read as `default`. Asking for a window wider than the capacity
    /// is a configuration error and is excluded outright.
    pub fn window(&self, last_n: usize, default: T) -> (out: Vec<T>)
        requires
            self.wf(),
            last_n <= self.cap(),
        ensures
            out@.len() == last_n,
            forall|i: int|
                0 <= i < last_n ==> out@[i] == (if i < self.contents().len() {
                    self.contents()[self.contents().len() - 1 - i]
                } else {
                    default
                }),
    {
        let mut out: Vec<T> = Vec::new();
        let mut i: usize = 0;
        while i < last_n
            invariant
                self.wf(),
                last_n <= self.cap(),
                i <= last_n,
                out@.len() == i,
                forall|k: int|
                    0 <= k < i ==> out@[k] == (if k < self.contents().len() {
                        self.contents()[self.contents().len() - 1 - k]
                    } else {
                        default
                    }),
            decreases last_n - i,
        {
            match self.get(i) {
                Some(v) => out.push(v),
                None => out.push(default),
            }
            i = i + 1;
        }
        out
    }
}

} // verus!
