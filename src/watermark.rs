//! The ingestion resume point of one resource type: the highest interval end
//! that has been durably stored. It only ever moves forward.

use vstd::prelude::*;

verus! {

/// Where ingestion starts when nothing has been stored yet: 2022-04-01T00:00:00Z.
pub const EPOCH: i64 = 1648771200;

/// The mark after `advance(ts)` from `current`: `ts` if it is later, else `current`.
pub open spec fn advance_mark(current: int, ts: int) -> int {
    if ts > current {
        ts
    } else {
        current
    }
}

/// The mark after advancing from `start` by each of `tss` in turn.
pub open spec fn marks_after(start: int, tss: Seq<int>) -> int
    decreases tss.len(),
{
    if tss.len() == 0 {
        start
    } else {
        advance_mark(marks_after(start, tss.drop_last()), tss.last())
    }
}

/// A monotone timestamp, in Unix seconds.
#[derive(Debug, Clone, Copy, PartialEq, Eq, Structural)]
pub struct Watermark {
    at: i64,
}

impl View for Watermark {
    type V = int;

    closed spec fn view(&self) -> int {
        self.at as int
    }
}

impl Watermark {
    /// A mark at the historical epoch.
    pub fn new() -> (r: Watermark)
        ensures
            r@ == EPOCH,
    {
        Watermark { at: EPOCH }
    }

    /// A mark restored after a restart from the latest stored interval end, if
    /// any; never earlier than the epoch.
    pub fn resume(stored_end: Option<i64>) -> (r: Watermark)
        ensures
            r@ == match stored_end {
                Some(t) => advance_mark(EPOCH as int, t as int),
                None => EPOCH as int,
            },
    {
        let mut w = Watermark::new();
        if let Some(t) = stored_end {
            w.advance(t);
        }
        w
    }

    pub fn get(&self) -> (r: i64)
        ensures
            r == self@,
    {
        self.at
    }

    /// Moves the mark to `ts` if `ts` is strictly later; otherwise leaves it
    /// as it is. Returns whether it moved.
    pub fn advance(&mut self, ts: i64) -> (r: bool)
        ensures
            r == (ts > old(self)@),
            final(self)@ == advance_mark(old(self)@, ts as int),
    {
        if ts > self.at {
            self.at = ts;
            true
        } else {
            false
        }
    }
}

/// Over any sequence of `advance` calls, in any order, the mark never goes
/// back: after each call it is at least what it was before, and calls with an
/// earlier timestamp leave it unchanged.
pub proof fn lemma_marks_monotone(start: int, tss: Seq<int>, i: int, j: int)
    requires
        0 <= i <= j <= tss.len(),
    ensures
        start <= marks_after(start, tss.take(i)) <= marks_after(start, tss.take(j)),
        j > 0 && tss[j - 1] <= marks_after(start, tss.take(j - 1)) ==> marks_after(
            start,
            tss.take(j),
        ) == marks_after(start, tss.take(j - 1)),
    decreases j,
{
    if j > 0 {
        assert(tss.take(j).drop_last() == tss.take(j - 1));
        if i == j {
            lemma_marks_monotone(start, tss, j - 1, j - 1);
        } else {
            lemma_marks_monotone(start, tss, i, j - 1);
        }
    } else {
        assert(tss.take(0) == Seq::<int>::empty());
    }
}

/// Advancing twice to the same timestamp leaves the mark where one advance put it.
pub proof fn lemma_advance_idempotent(current: int, ts: int)
    ensures
        advance_mark(advance_mark(current, ts), ts) == advance_mark(current, ts),
{
}

} // verus!
