//! A bounded circular history buffer.
//!
//! `LimitedList<T, LIMIT>` keeps the `LIMIT` most recent values pushed into
//! it, together with a monotonically increasing write count. Writes wrap
//! around a cursor; `clean` rotates the storage so that the physical slot
//! order coincides with the logical (oldest-to-newest) order, and an owning
//! drain yields the retained values chronologically, exactly once.

use vstd::prelude::*;

verus! {

/// A fixed-capacity window over the most recent `LIMIT` values pushed.
///
/// Physically: a vector of at most `LIMIT` slots, a write cursor `ind`, and a
/// total write count `written`. Until the window fills, slots are appended in
/// insertion order; once full, the slot at the cursor is overwritten and the
/// cursor wraps.
pub struct LimitedList<T, const LIMIT: usize> {
    contents: Vec<T>,
    ind: usize,
    written: usize,
    hist: Ghost<Seq<T>>,
}

impl<T, const LIMIT: usize> View for LimitedList<T, LIMIT> {
    type V = Seq<T>;

    /// The logical contents of the window, oldest to newest.
    closed spec fn view(&self) -> Seq<T> {
        if self.written <= LIMIT {
            self.contents@
        } else {
            self.contents@.skip(self.ind as int) + self.contents@.take(self.ind as int)
        }
    }
}

impl<T, const LIMIT: usize> LimitedList<T, LIMIT> {
    /// The complete sequence of values ever pushed, oldest first.
    pub closed spec fn pushed(self) -> Seq<T> {
        self.hist@
    }

    /// How many values the window currently retains.
    pub open spec fn retained_len(self) -> int {
        if self.pushed().len() <= LIMIT {
            self.pushed().len() as int
        } else {
            LIMIT as int
        }
    }

    /// The physical slot order, as stored.
    pub closed spec fn slots(self) -> Seq<T> {
        self.contents@
    }

    /// Well-formedness: the write count matches the push history, the cursor
    /// stays within the capacity (tracking the write count until the window
    /// first fills; normalization may reset it afterwards), the storage holds
    /// exactly the retained values, and the logical contents are the suffix
    /// of the push history of length `min(LIMIT, total writes)`.
    pub closed spec fn wf(self) -> bool {
        &&& 0 < LIMIT
        &&& self.hist@.len() == self.written
        &&& self.ind < LIMIT
        &&& self.written <= LIMIT ==> self.ind == self.written % LIMIT
        &&& self.contents@.len() == self.retained_len()
        &&& self@ =~= self.hist@.skip(self.hist@.len() - self.retained_len())
    }

    /// Creates an empty window. A capacity of zero is a configuration error:
    /// construction demands a positive `LIMIT`.
    pub fn new() -> (w: LimitedList<T, LIMIT>)
        requires
            0 < LIMIT,
        ensures
            w.wf(),
            w@ == Seq::<T>::empty(),
            w.pushed() == Seq::<T>::empty(),
    {
        let w = LimitedList { contents: Vec::new(), ind: 0, written: 0, hist: Ghost(Seq::empty()) };
        proof {
            assert(w@ =~= Seq::<T>::empty());
            assert(w@ =~= w.hist@.skip(w.hist@.len() - w.retained_len()));
        }
        w
    }

    /// Records `val`, overwriting the oldest retained value once the window
    /// has wrapped. The logical contents gain `val` at the newest end and,
    /// when the window is already full, lose the oldest value.
    pub fn push(&mut self, val: T)
        requires
            old(self).wf(),
            old(self).pushed().len() < usize::MAX,
        ensures
            final(self).wf(),
            final(self).pushed() == old(self).pushed().push(val),
            final(self)@ == if old(self)@.len() < LIMIT {
                old(self)@.push(val)
            } else {
                old(self)@.skip(1).push(val)
            },
    {
        if self.contents.len() < LIMIT {
            self.contents.push(val);
        } else {
            self.contents[self.ind] = val;
        }
        self.ind += 1;
        self.ind %= LIMIT;
        self.written += 1;
        proof {
            self.hist@ = self.hist@.push(val);
            let o = *old(self);
            let l = LIMIT as int;
            let w = o.written as int;
            let h = o.hist@;
            if o.written < LIMIT {
                vstd::arithmetic::div_mod::lemma_small_mod(o.written as nat, LIMIT as nat);
                assert(o.ind == w);
                assert(self@ =~= o@.push(val));
                assert(self@ =~= self.hist@.skip(self.hist@.len() - self.retained_len()));
            } else {
                let c = o.contents@;
                let i = o.ind as int;
                let c2 = self.contents@;
                assert(c2 =~= c.update(i, val));
                if o.written == LIMIT {
                    assert(l % l == 0) by (nonlinear_arith)
                        requires
                            0 < l,
                    ;
                    assert(i == 0);
                }
                assert(o@ =~= c.skip(i) + c.take(i));
                let i2 = self.ind as int;
                if i + 1 < l {
                    vstd::arithmetic::div_mod::lemma_small_mod((i + 1) as nat, LIMIT as nat);
                    assert(i2 == i + 1);
                } else {
                    vstd::arithmetic::div_mod::lemma_mod_self_0(l);
                    assert(i2 == 0);
                }
                assert(self@ =~= c2.skip(i2) + c2.take(i2));
                let t = o@.skip(1).push(val);
                assert(self@.len() == l && t.len() == l);
                assert forall|j: int| 0 <= j < l implies self@[j] == t[j] by {
                    if j < l - 1 {
                        assert(t[j] == o@[j + 1]);
                    }
                }
                assert(self@ =~= t);
                assert(o@ =~= h.skip(w - l));
                let h2 = self.hist@;
                let s = h2.skip(h2.len() - self.retained_len());
                assert(s.len() == l);
                assert forall|j: int| 0 <= j < l implies self@[j] == s[j] by {
                    if j < l - 1 {
                        assert(self@[j] == o@[j + 1]);
                        assert(o@[j + 1] == h[w - l + j + 1]);
                        assert(s[j] == h2[w + 1 - l + j]);
                    }
                }
                assert(self@ =~= s);
            }
        }
    }

    /// The observable effect of [`Self::clean`]: the push history and the
    /// logical order are unchanged, and the physical slot order now equals
    /// the logical order.
    pub open spec fn clean_post(pre: Self, post: Self) -> bool {
        &&& post.wf()
        &&& post@ == pre@
        &&& post.pushed() == pre.pushed()
        &&& post.slots() == post@
    }

    /// Normalizes the window: once it has wrapped, rotates the storage left
    /// by the cursor so that slot 0 holds the oldest retained value and the
    /// last slot the newest, then resets the cursor. Before the window wraps
    /// the slots are already in insertion order and nothing changes.
    pub fn clean(&mut self)
        requires
            old(self).wf(),
        ensures
            final(self).wf(),
            final(self)@ == old(self)@,
            final(self).pushed() == old(self).pushed(),
            final(self).slots() == final(self)@,
            Self::clean_post(*old(self), *final(self)),
    {
        if self.written > LIMIT {
            let rot = self.ind;
            let ghost c = self.contents@;
            let mut k: usize = 0;
            while k < rot
                invariant
                    k <= rot,
                    rot < LIMIT,
                    c.len() == LIMIT,
                    self.contents@ =~= c.skip(k as int) + c.take(k as int),
                    self.ind == rot,
                    self.written == old(self).written,
                    self.written > LIMIT,
                    self.hist == old(self).hist,
                decreases rot - k,
            {
                let v = self.contents.remove(0);
                self.contents.push(v);
                proof {
                    assert(self.contents@ =~= c.skip(k + 1) + c.take(k + 1));
                }
                k += 1;
            }
            self.ind = 0;
            proof {
                let o = *old(self);
                assert(o@ =~= c.skip(rot as int) + c.take(rot as int));
                assert(self@ =~= self.contents@.skip(0) + self.contents@.take(0));
                assert(self@ =~= o@);
                assert(self.slots() =~= self@);
                assert(self@ =~= self.hist@.skip(self.hist@.len() - self.retained_len()));
            }
        }
    }

    /// The values as physically stored, cursor position and all. Chronological
    /// order is only guaranteed after [`Self::clean`].
    pub fn slot_values(&self) -> (v: &Vec<T>)
        ensures
            v@ == self.slots(),
    {
        &self.contents
    }

    /// Consumes the window into a one-shot, chronological drain: the window
    /// is normalized and the iterator then yields the retained values oldest
    /// to newest, exactly once each.
    pub fn into_iter(self) -> (it: LimitedListIterator<T, LIMIT>)
        requires
            self.wf(),
        ensures
            it.wf(),
            it.remaining() == self@,
    {
        let mut w = self;
        w.clean();
        LimitedListIterator { ll: w, ind: 0 }
    }
}

/// An owning, one-shot drain over a [`LimitedList`], yielding the retained
/// values in chronological order and nothing after that.
pub struct LimitedListIterator<T, const LIMIT: usize> {
    ll: LimitedList<T, LIMIT>,
    ind: usize,
}

impl<T, const LIMIT: usize> LimitedListIterator<T, LIMIT> {
    /// The values the drain has not yet yielded, oldest first.
    pub closed spec fn remaining(self) -> Seq<T> {
        self.ll.contents@
    }

    /// Well-formedness: the count of already-yielded values and the values
    /// still stored add up to the retained length of the drained window.
    pub closed spec fn wf(self) -> bool {
        &&& 0 < LIMIT
        &&& self.ll.hist@.len() == self.ll.written
        &&& self.ind + self.ll.contents@.len() == self.ll.retained_len()
    }

    /// Yields the oldest value not yet yielded, or `None` once the drain is
    /// exhausted; an exhausted drain stays exhausted.
    pub fn next(&mut self) -> (r: Option<T>)
        requires
            old(self).wf(),
        ensures
            final(self).wf(),
            old(self).remaining().len() > 0 ==> {
                &&& r == Some(old(self).remaining()[0])
                &&& final(self).remaining() == old(self).remaining().skip(1)
            },
            old(self).remaining().len() == 0 ==> {
                &&& r is None
                &&& final(self).remaining() == old(self).remaining()
            },
    {
        if self.ind < LIMIT && self.ind < self.ll.written {
            let v = self.ll.contents.remove(0);
            self.ind += 1;
            proof {
                assert(self.remaining() =~= old(self).remaining().skip(1));
            }
            Some(v)
        } else {
            None
        }
    }
}

/// The sum of a sequence of rewards, as an unbounded integer.
pub open spec fn seq_sum(s: Seq<u64>) -> int
    decreases s.len(),
{
    if s.len() == 0 {
        0
    } else {
        s[0] + seq_sum(s.skip(1))
    }
}

/// A sum of unsigned rewards is never negative.
pub proof fn lemma_seq_sum_nonneg(s: Seq<u64>)
    ensures
        seq_sum(s) >= 0,
    decreases s.len(),
{
    if s.len() > 0 {
        lemma_seq_sum_nonneg(s.skip(1));
    }
}

impl<const LIMIT: usize> LimitedList<u64, LIMIT> {
    /// Drains the window and adds up the retained rewards, oldest to newest.
    pub fn sum(self) -> (total: u64)
        requires
            self.wf(),
            seq_sum(self@) <= u64::MAX,
        ensures
            total == seq_sum(self@),
    {
        let ghost full = self@;
        let mut it = self.into_iter();
        let mut total: u64 = 0;
        #[verifier::loop_isolation(false)]
        loop
            invariant
                it.wf(),
                seq_sum(full) <= u64::MAX,
                total + seq_sum(it.remaining()) == seq_sum(full),
            decreases it.remaining().len(),
        {
            match it.next() {
                Some(v) => {
                    proof {
                        lemma_seq_sum_nonneg(it.remaining());
                    }
                    total = total + v;
                },
                None => {
                    return total;
                },
            }
        }
    }
}

/// Window ordering law: for any history of pushes, the logical contents of a
/// well-formed window, oldest to newest, are exactly the suffix of the push
/// history of length `min(LIMIT, total writes)`.
pub proof fn lemma_window_ordering<T, const LIMIT: usize>(w: LimitedList<T, LIMIT>)
    requires
        w.wf(),
    ensures
        w@ == w.pushed().skip(w.pushed().len() - w.retained_len()),
{
    assert(w@ =~= w.pushed().skip(w.pushed().len() - w.retained_len()));
}

/// Partial-fill law: a well-formed window that never wrapped retains every
/// pushed value, in insertion order, with no padding.
pub proof fn lemma_partial_fill<T, const LIMIT: usize>(w: LimitedList<T, LIMIT>)
    requires
        w.wf(),
        w.pushed().len() <= LIMIT,
    ensures
        w@ == w.pushed(),
{
    assert(w@ =~= w.pushed());
}

/// Idempotent normalization law: normalizing a window a second time changes
/// neither the physical slot order nor the logical order that the first
/// normalization produced.
pub proof fn lemma_clean_idempotent<T, const LIMIT: usize>(
    w0: LimitedList<T, LIMIT>,
    w1: LimitedList<T, LIMIT>,
    w2: LimitedList<T, LIMIT>,
)
    requires
        LimitedList::clean_post(w0, w1),
        LimitedList::clean_post(w1, w2),
    ensures
        w2.slots() == w1.slots(),
        w2@ == w1@,
{
}

} // verus!
