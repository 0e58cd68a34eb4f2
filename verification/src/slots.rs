//! The abstract state of a bounded array: a row of slots, each vacant or
//! occupied, and the length of the live prefix.
//!
//! Everything here is specification. The container's contracts are stated
//! over these functions, and the laws at the end of the file are proved of
//! them once and for all.

use vstd::prelude::*;

verus! {

/// A row of storage slots together with the number of live elements.
///
/// `cells[i]` is `Some(v)` when slot `i` holds the value `v` and `None` when
/// it holds nothing. The first `len` slots are the live elements; what lies
/// behind them is spare capacity, which may or may not hold values.
pub struct Slots<T> {
    pub len: nat,
    pub cells: Seq<Option<T>>,
}

/// One step of the container's life, as a value.
pub enum Op<T> {
    /// `push(v)`: only admitted while there is space.
    Push(T),
    /// `try_push(v)`: leaves a full container as it is.
    TryPush(T),
    /// `pop()`: leaves an empty container as it is.
    Pop,
    /// `truncate(n)`.
    Truncate(nat),
    /// `clear()`.
    Clear,
}

impl<T> Slots<T> {
    /// The number of slots.
    pub open spec fn capacity(self) -> nat {
        self.cells.len()
    }

    /// The live prefix fits the storage and every slot in it is occupied.
    pub open spec fn wf(self) -> bool {
        &&& self.len <= self.cells.len()
        &&& forall|i: int| 0 <= i < self.len ==> (#[trigger] self.cells[i]) is Some
    }

    /// The live elements, in insertion order.
    pub open spec fn live(self) -> Seq<T> {
        Seq::new(self.len, |i: int| self.cells[i].unwrap())
    }

    /// The slots behind the live prefix.
    pub open spec fn spare(self) -> Seq<Option<T>> {
        self.cells.subrange(self.len as int, self.cells.len() as int)
    }

    /// The slots of the live prefix.
    pub open spec fn prefix(self) -> Seq<Option<T>> {
        self.cells.subrange(0, self.len as int)
    }

    /// The same length over another row of slots.
    pub open spec fn with_cells(self, cells: Seq<Option<T>>) -> Self {
        Slots { len: self.len, cells }
    }

    /// The same spare capacity behind another row of prefix slots.
    pub open spec fn with_prefix(self, prefix: Seq<Option<T>>) -> Self {
        Slots { len: self.len, cells: prefix + self.spare() }
    }

    /// The same live prefix in front of another row of spare slots.
    pub open spec fn with_spare(self, spare: Seq<Option<T>>) -> Self {
        Slots { len: self.len, cells: self.prefix() + spare }
    }

    pub open spec fn is_empty(self) -> bool {
        self.len == 0
    }

    pub open spec fn is_full(self) -> bool {
        self.len == self.cells.len()
    }

    pub open spec fn has_space(self) -> bool {
        self.len < self.cells.len()
    }

    /// `cap` slots, none of them occupied.
    pub open spec fn vacant(cap: nat) -> Self {
        Slots { len: 0, cells: Seq::new(cap, |i: int| None) }
    }

    /// `cap` slots that all hold `v`, none of them live yet.
    pub open spec fn filled(cap: nat, v: T) -> Self {
        Slots { len: 0, cells: Seq::new(cap, |i: int| Some(v)) }
    }

    /// The first elements of `source`, as many as fit into `cap` slots, as
    /// the live prefix; every other slot vacant.
    pub open spec fn from_seq(cap: nat, source: Seq<T>) -> Self {
        let len = if source.len() <= cap {
            source.len()
        } else {
            cap
        };
        Slots {
            len,
            cells: Seq::new(
                cap,
                |i: int|
                    if i < len {
                        Some(source[i])
                    } else {
                        None
                    },
            ),
        }
    }

    /// Writes `v` into the first spare slot and makes it live.
    pub open spec fn push(self, v: T) -> Self {
        Slots { len: self.len + 1, cells: self.cells.update(self.len as int, Some(v)) }
    }

    /// `push` where there is space, no change where there is none.
    pub open spec fn try_push(self, v: T) -> Self {
        if self.has_space() {
            self.push(v)
        } else {
            self
        }
    }

    /// The last live element, if there is one.
    pub open spec fn last(self) -> Option<T> {
        if self.len == 0 {
            None
        } else {
            self.cells[self.len - 1]
        }
    }

    /// Moves the last live element out, leaving its slot vacant.
    pub open spec fn pop(self) -> Self {
        if self.len == 0 {
            self
        } else {
            Slots {
                len: (self.len - 1) as nat,
                cells: self.cells.update(self.len - 1, None),
            }
        }
    }

    /// Vacates the live slots from `n` on; no change when `n` is not below
    /// the length.
    pub open spec fn truncate(self, n: nat) -> Self {
        if n >= self.len {
            self
        } else {
            Slots {
                len: n,
                cells: Seq::new(
                    self.cells.len(),
                    |i: int|
                        if n <= i < self.len {
                            None
                        } else {
                            self.cells[i]
                        },
                ),
            }
        }
    }

    /// Vacates every live slot.
    pub open spec fn clear(self) -> Self {
        self.truncate(0)
    }

    /// Moves the boundary of the live prefix and touches no slot.
    pub open spec fn set_len(self, n: nat) -> Self {
        Slots { len: n, cells: self.cells }
    }

    /// Replaces the live element at `i`.
    pub open spec fn set(self, i: int, v: T) -> Self {
        Slots { len: self.len, cells: self.cells.update(i, Some(v)) }
    }

    /// Whether `op` may be applied in this state: everything but a `push`
    /// onto a full container.
    pub open spec fn admits(self, op: Op<T>) -> bool {
        op is Push ==> self.has_space()
    }

    /// The state after `op`.
    pub open spec fn step(self, op: Op<T>) -> Self {
        match op {
            Op::Push(v) => self.push(v),
            Op::TryPush(v) => self.try_push(v),
            Op::Pop => self.pop(),
            Op::Truncate(n) => self.truncate(n),
            Op::Clear => self.clear(),
        }
    }

    /// Whether `ops` may be applied one after the other, starting here.
    pub open spec fn admits_all(self, ops: Seq<Op<T>>) -> bool
        decreases ops.len(),
    {
        if ops.len() == 0 {
            true
        } else {
            self.admits(ops[0]) && self.step(ops[0]).admits_all(ops.drop_first())
        }
    }

    /// The state after all of `ops`, applied in order.
    pub open spec fn run(self, ops: Seq<Op<T>>) -> Self
        decreases ops.len(),
    {
        if ops.len() == 0 {
            self
        } else {
            self.step(ops[0]).run(ops.drop_first())
        }
    }

    /// A single admitted operation keeps the state well formed and the
    /// number of slots as it was.
    pub proof fn lemma_step_preserves_wf(self, op: Op<T>)
        requires
            self.wf(),
            self.admits(op),
        ensures
            self.step(op).wf(),
            self.step(op).capacity() == self.capacity(),
    {
    }

    /// Whatever sequence of pushes, pops, truncations and clears is applied
    /// to a well-formed state, the outcome is well formed: the length lies
    /// between zero and the capacity, the capacity is what it was, and the
    /// container is full exactly when the two are equal.
    pub proof fn lemma_run_preserves_wf(self, ops: Seq<Op<T>>)
        requires
            self.wf(),
            self.admits_all(ops),
        ensures
            self.run(ops).wf(),
            self.run(ops).capacity() == self.capacity(),
            0 <= self.run(ops).len <= self.capacity(),
            self.run(ops).is_full() <==> self.run(ops).len == self.capacity(),
        decreases ops.len(),
    {
        if ops.len() > 0 {
            self.lemma_step_preserves_wf(ops[0]);
            self.step(ops[0]).lemma_run_preserves_wf(ops.drop_first());
        }
    }

    /// The same holds at every point on the way: after the first `k`
    /// operations of the sequence, for each `k`.
    pub proof fn lemma_run_always_wf(self, ops: Seq<Op<T>>, k: int)
        requires
            self.wf(),
            self.admits_all(ops),
            0 <= k <= ops.len(),
        ensures
            self.admits_all(ops.take(k)),
            self.run(ops.take(k)).wf(),
            self.run(ops.take(k)).capacity() == self.capacity(),
            0 <= self.run(ops.take(k)).len <= self.capacity(),
            self.run(ops.take(k)).is_full() <==> self.run(ops.take(k)).len == self.capacity(),
        decreases k,
    {
        if k > 0 {
            assert(ops.take(k)[0] == ops[0]);
            assert(ops.take(k).drop_first() =~= ops.drop_first().take(k - 1));
            self.lemma_step_preserves_wf(ops[0]);
            self.step(ops[0]).lemma_run_always_wf(ops.drop_first(), k - 1);
        }
    }

    /// A push appends to the live elements.
    pub proof fn lemma_push_live(self, v: T)
        requires
            self.wf(),
            self.has_space(),
        ensures
            self.push(v).live() == self.live().push(v),
    {
        assert(self.push(v).live() =~= self.live().push(v));
    }

    /// `try_push` on a full container changes nothing.
    pub proof fn lemma_try_push_full(self, v: T)
        requires
            self.is_full(),
        ensures
            self.try_push(v) == self,
    {
    }

    /// A pop removes the last live element and hands it out.
    pub proof fn lemma_pop_live(self)
        requires
            self.wf(),
            !self.is_empty(),
        ensures
            self.last() == Some(self.live().last()),
            self.pop().live() == self.live().drop_last(),
    {
        assert(self.pop().live() =~= self.live().drop_last());
    }

    /// Pushing `v` and popping at once hands `v` back and restores the
    /// length and the live elements.
    pub proof fn lemma_push_pop(self, v: T)
        requires
            self.wf(),
            self.has_space(),
        ensures
            self.push(v).last() == Some(v),
            self.push(v).pop().len == self.len,
            self.push(v).pop().live() == self.live(),
    {
        assert(self.push(v).pop().live() =~= self.live());
    }

    /// Truncating below the length keeps exactly the first `n` live
    /// elements and vacates the slots of the others; the spare capacity
    /// behind the old length is untouched.
    pub proof fn lemma_truncate_shorter(self, n: nat)
        requires
            self.wf(),
            n < self.len,
        ensures
            self.truncate(n).len == n,
            self.truncate(n).live() == self.live().take(n as int),
            forall|i: int| n <= i < self.len ==> (#[trigger] self.truncate(n).cells[i]) is None,
            forall|i: int|
                self.len <= i < self.capacity() ==> (#[trigger] self.truncate(n).cells[i])
                    == self.cells[i],
    {
        assert(self.truncate(n).live() =~= self.live().take(n as int));
    }

    /// Truncating to the length or beyond changes nothing.
    pub proof fn lemma_truncate_noop(self, n: nat)
        requires
            n >= self.len,
        ensures
            self.truncate(n) == self,
    {
    }

    /// Clearing leaves no live element and no occupied slot among those
    /// that were live, whatever the state was; the capacity is unchanged.
    pub proof fn lemma_clear_empties(self)
        ensures
            self.clear().len == 0,
            self.clear().live() == Seq::<T>::empty(),
            self.clear().capacity() == self.capacity(),
            forall|i: int|
                0 <= i < self.len && i < self.capacity() ==> (#[trigger] self.clear().cells[i])
                    is None,
    {
        assert(self.clear().live() =~= Seq::<T>::empty());
    }
}

} // verus!
