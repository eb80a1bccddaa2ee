//! Bounded chronological history of samples.
//!
//! A history is a first-in-first-out ring of at most `HISTORY_CAP` points:
//! pushing onto a full history evicts the oldest point from the front.

use vstd::prelude::*;

verus! {

/// One sample of a rolling history: milliseconds elapsed since the
/// collector was built, and the sampled value (CPU utilisation in
/// hundredths of a percent, or memory in bytes).
#[derive(Clone, Copy, Debug, PartialEq, Eq, Structural)]
pub struct HistoryPoint {
    pub elapsed_ms: u64,
    pub value: u64,
}

/// Largest number of points a history retains.
pub const HISTORY_CAP: usize = 300;

/// What pushing onto a bounded history means: append the point, evicting
/// the oldest one when the capacity is already reached.
pub open spec fn bounded_push(s: Seq<HistoryPoint>, p: HistoryPoint) -> Seq<HistoryPoint> {
    if s.len() < HISTORY_CAP {
        s.push(p)
    } else {
        s.subrange(1, s.len() as int).push(p)
    }
}

/// Timestamps never decrease from one point to the next.
pub open spec fn chronological(s: Seq<HistoryPoint>) -> bool {
    forall|i: int, j: int| 0 <= i <= j < s.len() ==> s[i].elapsed_ms <= s[j].elapsed_ms
}

/// Push a point onto a bounded history, evicting the oldest point when the
/// history is full.
pub fn history_push(h: &mut Vec<HistoryPoint>, p: HistoryPoint)
    requires
        old(h)@.len() <= HISTORY_CAP,
    ensures
        final(h)@ == bounded_push(old(h)@, p),
        final(h)@.len() <= HISTORY_CAP,
{
    if h.len() == HISTORY_CAP {
        h.remove(0);
        proof {
            assert(h@ =~= old(h)@.subrange(1, old(h)@.len() as int));
        }
    }
    h.push(p);
}

/// Law: a bounded history never grows past the capacity; pushing onto a
/// full history keeps the length at the capacity and evicts exactly the
/// oldest point, shifting the rest forward; the new point always lands at
/// the back.
pub proof fn lemma_history_bound(s: Seq<HistoryPoint>, p: HistoryPoint)
    requires
        s.len() <= HISTORY_CAP,
    ensures
        bounded_push(s, p).len() <= HISTORY_CAP,
        s.len() < HISTORY_CAP ==> bounded_push(s, p).len() == s.len() + 1,
        s.len() == HISTORY_CAP ==> bounded_push(s, p).len() == HISTORY_CAP,
        s.len() == HISTORY_CAP ==> forall|i: int|
            0 <= i < HISTORY_CAP - 1 ==> bounded_push(s, p)[i] == s[i + 1],
        bounded_push(s, p).last() == p,
{
}

/// Law: pushing a point no older than the latest one keeps a history
/// chronological; so does the eviction of the oldest point.
pub proof fn lemma_history_chronological(s: Seq<HistoryPoint>, p: HistoryPoint)
    requires
        chronological(s),
        s.len() > 0 ==> s.last().elapsed_ms <= p.elapsed_ms,
    ensures
        chronological(bounded_push(s, p)),
{
    let r = bounded_push(s, p);
    assert forall|i: int, j: int| 0 <= i <= j < r.len() implies r[i].elapsed_ms
        <= r[j].elapsed_ms by {
        if s.len() < HISTORY_CAP {
            if j < s.len() {
                assert(s[i].elapsed_ms <= s[j].elapsed_ms);
            } else if i < s.len() {
                assert(s[i].elapsed_ms <= s.last().elapsed_ms);
            }
        } else {
            if j < r.len() - 1 {
                assert(s[i + 1].elapsed_ms <= s[j + 1].elapsed_ms);
            } else if i < r.len() - 1 {
                assert(s[i + 1].elapsed_ms <= s.last().elapsed_ms);
            }
        }
    }
}

} // verus!
