//! Time ranges of the editor timeline and subtracting cuts from them.
//!
//! A range `(start, end)` covers the milliseconds `t` with `start <= t < end`.
use vstd::prelude::*;

verus! {

/// The ranges left of `r` after cutting `[cut_start, cut_end)` out of it.
pub open spec fn spec_piece(r: (u64, u64), cut_start: u64, cut_end: u64) -> Seq<(u64, u64)> {
    if cut_end <= r.0 || cut_start >= r.1 {
        seq![r]
    } else {
        (if cut_start > r.0 { seq![(r.0, cut_start)] } else { seq![] })
            + (if cut_end < r.1 { seq![(cut_end, r.1)] } else { seq![] })
    }
}

/// The ranges left of `rs` after cutting `[cut_start, cut_end)` out of each, in order.
pub open spec fn spec_subtract(rs: Seq<(u64, u64)>, cut_start: u64, cut_end: u64) -> Seq<(u64, u64)>
    decreases rs.len(),
{
    if rs.len() == 0 {
        seq![]
    } else {
        spec_subtract(rs.drop_last(), cut_start, cut_end) + spec_piece(rs.last(), cut_start, cut_end)
    }
}

/// Some range of `rs` covers the millisecond `t`.
pub open spec fn covers(rs: Seq<(u64, u64)>, t: int) -> bool {
    exists|i: int| 0 <= i < rs.len() && (#[trigger] rs[i]).0 <= t < rs[i].1
}

/// Every range of `rs` is non-empty.
pub open spec fn all_nonempty(rs: Seq<(u64, u64)>) -> bool {
    forall|i: int| 0 <= i < rs.len() ==> (#[trigger] rs[i]).0 < rs[i].1
}

/// The ranges of `rs` follow one another without overlap.
pub open spec fn ordered(rs: Seq<(u64, u64)>) -> bool {
    forall|i: int, j: int| 0 <= i < j < rs.len() ==> (#[trigger] rs[i]).1 <= (#[trigger] rs[j]).0
}

/// Each range of `rs` has its start at or before its end.
pub open spec fn well_formed(rs: Seq<(u64, u64)>) -> bool {
    forall|i: int| 0 <= i < rs.len() ==> (#[trigger] rs[i]).0 <= rs[i].1
}

/// Subtracts the range `[cut_start, cut_end)` from a list of ranges, keeping the
/// part of each range before the cut and the part after it.
pub fn subtract_range(ranges: Vec<(u64, u64)>, cut_start: u64, cut_end: u64) -> (r: Vec<(u64, u64)>)
    ensures
        r@ == spec_subtract(ranges@, cut_start, cut_end),
{
    let mut result: Vec<(u64, u64)> = Vec::new();
    let mut i: usize = 0;
    while i < ranges.len()
        invariant
            i <= ranges.len(),
            result@ == spec_subtract(ranges@.take(i as int), cut_start, cut_end),
        decreases ranges.len() - i,
    {
        let (start, end) = ranges[i];
        let ghost pre = result@;
        assert(ranges@.take(i + 1).drop_last() == ranges@.take(i as int));
        assert(ranges@.take(i + 1).last() == (start, end));
        if cut_end <= start || cut_start >= end {
            result.push((start, end));
            assert(result@ == pre + seq![(start, end)]);
        } else {
            if cut_start > start {
                result.push((start, cut_start));
            }
            if cut_end < end {
                result.push((cut_end, end));
            }
            assert(result@ =~= pre + spec_piece((start, end), cut_start, cut_end));
        }
        i = i + 1;
    }
    assert(ranges@.take(ranges.len() as int) == ranges@);
    result
}

proof fn lemma_covers_concat(a: Seq<(u64, u64)>, b: Seq<(u64, u64)>, t: int)
    ensures
        covers(a + b, t) <==> covers(a, t) || covers(b, t),
{
    if covers(a + b, t) {
        let i = choose|i: int| 0 <= i < (a + b).len() && (#[trigger] (a + b)[i]).0 <= t < (a + b)[i].1;
        if i < a.len() {
            assert(a[i] == (a + b)[i]);
        } else {
            assert(b[i - a.len()] == (a + b)[i]);
        }
    }
    if covers(a, t) {
        let i = choose|i: int| 0 <= i < a.len() && (#[trigger] a[i]).0 <= t < a[i].1;
        assert((a + b)[i] == a[i]);
    }
    if covers(b, t) {
        let i = choose|i: int| 0 <= i < b.len() && (#[trigger] b[i]).0 <= t < b[i].1;
        assert((a + b)[a.len() + i] == b[i]);
    }
}

proof fn lemma_covers_piece(r: (u64, u64), cut_start: u64, cut_end: u64, t: int)
    ensures
        covers(spec_piece(r, cut_start, cut_end), t) <==> (r.0 <= t < r.1 && !(cut_start <= t < cut_end)),
{
    let p = spec_piece(r, cut_start, cut_end);
    if cut_end <= r.0 || cut_start >= r.1 {
        if r.0 <= t < r.1 {
            assert(p[0] == r);
        }
    } else {
        let pre: Seq<(u64, u64)> = if cut_start > r.0 { seq![(r.0, cut_start)] } else { seq![] };
        let suf: Seq<(u64, u64)> = if cut_end < r.1 { seq![(cut_end, r.1)] } else { seq![] };
        lemma_covers_concat(pre, suf, t);
        if r.0 <= t < r.1 && !(cut_start <= t < cut_end) {
            if t < cut_start {
                assert(pre[0] == (r.0, cut_start));
            } else {
                assert(suf[0] == (cut_end, r.1));
            }
        }
    }
}

/// Subtracting a cut removes exactly the cut's milliseconds: a millisecond is
/// covered afterwards exactly when it was covered before and lies outside the cut.
pub proof fn lemma_subtract_covers(rs: Seq<(u64, u64)>, cut_start: u64, cut_end: u64, t: int)
    ensures
        covers(spec_subtract(rs, cut_start, cut_end), t) <==> (covers(rs, t) && !(cut_start <= t < cut_end)),
    decreases rs.len(),
{
    if rs.len() > 0 {
        lemma_subtract_covers(rs.drop_last(), cut_start, cut_end, t);
        lemma_covers_concat(spec_subtract(rs.drop_last(), cut_start, cut_end), spec_piece(rs.last(), cut_start, cut_end), t);
        lemma_covers_piece(rs.last(), cut_start, cut_end, t);
        assert(rs == rs.drop_last().push(rs.last()));
        lemma_covers_concat(rs.drop_last(), seq![rs.last()], t);
        if rs.last().0 <= t < rs.last().1 {
            assert(seq![rs.last()][0] == rs.last());
        }
    }
}

proof fn lemma_piece_within(r: (u64, u64), cut_start: u64, cut_end: u64)
    requires
        r.0 < r.1,
    ensures
        all_nonempty(spec_piece(r, cut_start, cut_end)),
        forall|k: int| 0 <= k < spec_piece(r, cut_start, cut_end).len() ==> r.0 <= (#[trigger] spec_piece(r, cut_start, cut_end)[k]).0 && spec_piece(r, cut_start, cut_end)[k].1 <= r.1,
        cut_start <= cut_end ==> ordered(spec_piece(r, cut_start, cut_end)),
{
}

proof fn lemma_piece_inside(r: (u64, u64), cut_start: u64, cut_end: u64)
    ensures
        spec_piece(r, cut_start, cut_end).len() <= 2,
        forall|k: int| 0 <= k < spec_piece(r, cut_start, cut_end).len() ==>
            r.0 <= (#[trigger] spec_piece(r, cut_start, cut_end)[k]).0 && spec_piece(r, cut_start, cut_end)[k].1 <= r.1,
{
}

/// Subtracting a cut leaves at most two pieces of each range, and every piece
/// lies inside one of the ranges it was cut from.
pub proof fn lemma_subtract_pieces(rs: Seq<(u64, u64)>, cut_start: u64, cut_end: u64)
    ensures
        spec_subtract(rs, cut_start, cut_end).len() <= 2 * rs.len(),
        forall|j: int| 0 <= j < spec_subtract(rs, cut_start, cut_end).len() ==> exists|i: int|
            0 <= i < rs.len() && (#[trigger] rs[i]).0 <= (#[trigger] spec_subtract(rs, cut_start, cut_end)[j]).0
                && spec_subtract(rs, cut_start, cut_end)[j].1 <= rs[i].1,
    decreases rs.len(),
{
    if rs.len() > 0 {
        let init = rs.drop_last();
        lemma_subtract_pieces(init, cut_start, cut_end);
        lemma_piece_inside(rs.last(), cut_start, cut_end);
        let a = spec_subtract(init, cut_start, cut_end);
        let b = spec_piece(rs.last(), cut_start, cut_end);
        let all = spec_subtract(rs, cut_start, cut_end);
        assert(all == a + b);
        assert forall|j: int| 0 <= j < all.len() implies exists|i: int|
            0 <= i < rs.len() && (#[trigger] rs[i]).0 <= (#[trigger] all[j]).0 && all[j].1 <= rs[i].1 by {
            if j < a.len() {
                assert(all[j] == a[j]);
                let i = choose|i: int| 0 <= i < init.len() && (#[trigger] init[i]).0 <= a[j].0 && a[j].1 <= init[i].1;
                assert(rs[i] == init[i]);
            } else {
                assert(all[j] == b[j - a.len()]);
                assert(rs[rs.len() - 1] == rs.last());
            }
        }
    }
}

/// Subtracting a cut keeps every range non-empty.
pub proof fn lemma_subtract_nonempty(rs: Seq<(u64, u64)>, cut_start: u64, cut_end: u64)
    requires
        all_nonempty(rs),
    ensures
        all_nonempty(spec_subtract(rs, cut_start, cut_end)),
    decreases rs.len(),
{
    if rs.len() > 0 {
        lemma_subtract_nonempty(rs.drop_last(), cut_start, cut_end);
        lemma_piece_within(rs.last(), cut_start, cut_end);
        let a = spec_subtract(rs.drop_last(), cut_start, cut_end);
        let b = spec_piece(rs.last(), cut_start, cut_end);
        assert forall|i: int| 0 <= i < (a + b).len() implies (a + b)[i].0 < (a + b)[i].1 by {
            if i < a.len() {
                assert((a + b)[i] == a[i]);
            } else {
                assert((a + b)[i] == b[i - a.len()]);
            }
        }
    }
}

proof fn lemma_subtract_within(rs: Seq<(u64, u64)>, cut_start: u64, cut_end: u64, lo: int, hi: int)
    requires
        all_nonempty(rs),
        forall|i: int| 0 <= i < rs.len() ==> lo <= #[trigger] rs[i].0 && rs[i].1 <= hi,
    ensures
        forall|k: int| 0 <= k < spec_subtract(rs, cut_start, cut_end).len() ==> lo <= (#[trigger] spec_subtract(rs, cut_start, cut_end)[k]).0 && spec_subtract(rs, cut_start, cut_end)[k].1 <= hi,
    decreases rs.len(),
{
    if rs.len() > 0 {
        lemma_subtract_within(rs.drop_last(), cut_start, cut_end, lo, hi);
        lemma_piece_within(rs.last(), cut_start, cut_end);
        let a = spec_subtract(rs.drop_last(), cut_start, cut_end);
        let b = spec_piece(rs.last(), cut_start, cut_end);
        assert(rs.last() == rs[rs.len() - 1]);
        assert forall|k: int| 0 <= k < (a + b).len() implies lo <= #[trigger] (a + b)[k].0 && (a + b)[k].1 <= hi by {
            if k < a.len() {
                assert((a + b)[k] == a[k]);
            } else {
                assert((a + b)[k] == b[k - a.len()]);
            }
        }
    }
}

/// Subtracting a (non-inverted) cut from ordered, non-empty ranges leaves them
/// ordered.
pub proof fn lemma_subtract_ordered(rs: Seq<(u64, u64)>, cut_start: u64, cut_end: u64)
    requires
        all_nonempty(rs),
        ordered(rs),
        cut_start <= cut_end,
    ensures
        ordered(spec_subtract(rs, cut_start, cut_end)),
    decreases rs.len(),
{
    if rs.len() > 0 {
        let init = rs.drop_last();
        let last = rs.last();
        assert forall|i: int, j: int| 0 <= i < j < init.len() implies init[i].1 <= init[j].0 by {
            assert(init[i] == rs[i] && init[j] == rs[j]);
        }
        lemma_subtract_ordered(init, cut_start, cut_end);
        lemma_piece_within(last, cut_start, cut_end);
        let a = spec_subtract(init, cut_start, cut_end);
        let b = spec_piece(last, cut_start, cut_end);
        if init.len() > 0 {
            assert forall|i: int| 0 <= i < init.len() implies 0 <= #[trigger] init[i].0 && init[i].1 <= last.0 by {
                assert(init[i] == rs[i]);
                assert(last == rs[rs.len() - 1]);
            }
            lemma_subtract_within(init, cut_start, cut_end, 0, last.0 as int);
        }
        assert forall|i: int, j: int| 0 <= i < j < (a + b).len() implies (a + b)[i].1 <= (a + b)[j].0 by {
            if j < a.len() {
                assert((a + b)[i] == a[i] && (a + b)[j] == a[j]);
            } else if i >= a.len() {
                assert((a + b)[i] == b[i - a.len()] && (a + b)[j] == b[j - a.len()]);
            } else {
                assert((a + b)[i] == a[i] && (a + b)[j] == b[j - a.len()]);
                assert(a[i].1 <= last.0);
                assert(last.0 <= b[j - a.len()].0);
            }
        }
    }
}

} // verus!
