//! Cutting a region into parts along an axis, by percentage shares.
//!
//! A split is first proposed from outside this module and then settled here: a proposal
//! is kept when it tiles the parent and gives every part its share to within one cell,
//! and is replaced by the plain proportional split when it does not.

use vstd::prelude::*;
use crate::geometry::{Axis, Region};

verus! {

/// The sum of the first `count` shares.
pub open spec fn share_sum(shares: Seq<u16>, count: int) -> int
    decreases count,
{
    if count <= 0 {
        0
    } else {
        share_sum(shares, count - 1) + shares[count - 1]
    }
}

/// Whether `shares` are the percentages of one whole: they add up to 100.
pub open spec fn is_whole(shares: Seq<u16>) -> bool {
    share_sum(shares, shares.len() as int) == 100
}

/// Whether `parts`, in their order, tile `parent` along `axis`: the first begins where the
/// parent begins, each next one begins where the one before it ends, the last ends where
/// the parent ends, and each spans across the axis what the parent spans.
pub open spec fn tiles(axis: Axis, parent: Region, parts: Seq<Region>) -> bool {
    &&& parts.len() > 0
    &&& parts[0].begin(axis) == parent.begin(axis)
    &&& parts[parts.len() - 1].end(axis) == parent.end(axis)
    &&& forall|i: int| 0 <= i < parts.len() ==> (#[trigger] parts[i]).spans_like(parent, axis)
    &&& forall|i: int|
        0 < i < parts.len() ==> (#[trigger] parts[i]).begin(axis) == parts[i - 1].end(axis)
}

/// Whether a part of `extent` cells is `share` percent of `whole` cells to within one cell.
pub open spec fn keeps_share(extent: int, whole: int, share: int) -> bool {
    -100 < 100 * extent - whole * share < 100
}

/// Whether each of `parts` has, along `axis`, its share of `parent` to within one cell.
pub open spec fn honours(
    axis: Axis,
    parent: Region,
    shares: Seq<u16>,
    parts: Seq<Region>,
) -> bool {
    forall|i: int|
        0 <= i < parts.len() && i < shares.len() ==> keeps_share(
            (#[trigger] parts[i]).extent(axis),
            parent.extent(axis),
            shares[i] as int,
        )
}

/// Whether `parts` can stand for the split of `parent` by `shares`: one part for each
/// share, tiling the parent, each with its share.
pub open spec fn acceptable(
    axis: Axis,
    parent: Region,
    shares: Seq<u16>,
    parts: Seq<Region>,
) -> bool {
    &&& parts.len() == shares.len()
    &&& tiles(axis, parent, parts)
    &&& honours(axis, parent, shares, parts)
}

/// How far into `extent` cells the first `count` shares reach, rounded down.
pub open spec fn cut(extent: int, shares: Seq<u16>, count: int) -> int {
    extent * share_sum(shares, count) / 100
}

/// The plain proportional split: part `i` lies between the cuts before and after share `i`.
pub open spec fn proportional(axis: Axis, parent: Region, shares: Seq<u16>) -> Seq<Region> {
    Seq::new(
        shares.len(),
        |i: int|
            parent.with_span(
                axis,
                (parent.begin(axis) + cut(parent.extent(axis), shares, i)) as u16,
                (cut(parent.extent(axis), shares, i + 1) - cut(parent.extent(axis), shares, i))
                    as u16,
            ),
    )
}

/// The split that is used for `parent`: the proposal where it is acceptable, the
/// proportional split where it is not.
pub open spec fn settled(
    axis: Axis,
    parent: Region,
    shares: Seq<u16>,
    proposal: Seq<Region>,
) -> Seq<Region> {
    if acceptable(axis, parent, shares, proposal) {
        proposal
    } else {
        proportional(axis, parent, shares)
    }
}

/// The sum of shares grows with their number and never passes the sum of all of them.
pub proof fn share_sum_grows(shares: Seq<u16>, fewer: int, more: int)
    requires
        0 <= fewer <= more,
    ensures
        0 <= share_sum(shares, fewer) <= share_sum(shares, more),
    decreases more,
{
    if fewer < more {
        share_sum_grows(shares, fewer, more - 1);
    } else if more > 0 {
        share_sum_grows(shares, fewer - 1, more - 1);
    }
}

/// Cuts lie in order between 0 and `extent`, and the part between two neighbouring cuts
/// keeps its share.
pub proof fn cuts_keep_shares(extent: int, shares: Seq<u16>, i: int)
    requires
        0 <= extent,
        is_whole(shares),
        0 <= i < shares.len(),
    ensures
        cut(extent, shares, 0) == 0,
        cut(extent, shares, shares.len() as int) == extent,
        0 <= cut(extent, shares, i) <= cut(extent, shares, i + 1) <= extent,
        keeps_share(cut(extent, shares, i + 1) - cut(extent, shares, i), extent, shares[i] as int),
{
    let count = shares.len() as int;
    let before = share_sum(shares, i);
    let after = share_sum(shares, i + 1);
    let share = shares[i] as int;
    share_sum_grows(shares, 0, i);
    share_sum_grows(shares, i, i + 1);
    share_sum_grows(shares, i + 1, count);
    assert(after == before + share);
    assert(extent * share_sum(shares, 0) == 0) by (nonlinear_arith)
        requires
            share_sum(shares, 0) == 0,
    ;
    assert(extent * share_sum(shares, count) == extent * 100) by (nonlinear_arith)
        requires
            share_sum(shares, count) == 100,
    ;
    assert(extent * after == extent * before + extent * share && 0 <= extent * before
        && 0 <= extent * share && extent * after <= extent * 100) by (nonlinear_arith)
        requires
            after == before + share,
            0 <= extent,
            0 <= before,
            0 <= share,
            after <= 100,
    ;
}

/// The proportional split by shares of one whole is acceptable.
pub proof fn proportional_is_acceptable(axis: Axis, parent: Region, shares: Seq<u16>)
    requires
        is_whole(shares),
    ensures
        acceptable(axis, parent, shares, proportional(axis, parent, shares)),
{
    let parts = proportional(axis, parent, shares);
    let whole = parent.extent(axis);
    let count = shares.len() as int;
    assert(count > 0);
    assert forall|i: int| 0 <= i < count implies {
        &&& (#[trigger] parts[i]).begin(axis) == parent.begin(axis) + cut(whole, shares, i)
        &&& parts[i].end(axis) == parent.begin(axis) + cut(whole, shares, i + 1)
        &&& parts[i].spans_like(parent, axis)
        &&& keeps_share(parts[i].extent(axis), whole, shares[i] as int)
    } by {
        cuts_keep_shares(whole, shares, i);
    }
    cuts_keep_shares(whole, shares, 0);
    cuts_keep_shares(whole, shares, count - 1);
    assert forall|i: int| 0 < i < count implies {
        (#[trigger] parts[i]).begin(axis) == parts[i - 1].end(axis)
    } by {
        assert(parts[i - 1].end(axis) == parent.begin(axis) + cut(whole, shares, i - 1 + 1));
    }
}

/// Tells whether a part of `extent` cells keeps `share` percent of `whole` cells.
fn share_kept(extent: u16, whole: u16, share: u16) -> (kept: bool)
    ensures
        kept == keeps_share(extent as int, whole as int, share as int),
{
    assert(whole * share <= 65535 * 65535) by (nonlinear_arith)
        requires
            whole <= 65535,
            share <= 65535,
    ;
    let got: i64 = 100 * (extent as i64);
    let due: i64 = (whole as i64) * (share as i64);
    -100 < got - due && got - due < 100
}

/// Tells whether `proposal` is acceptable as the split of `parent` by `shares`.
pub(crate) fn accepts(
    axis: Axis,
    parent: &Region,
    shares: &Vec<u16>,
    proposal: &Vec<Region>,
) -> (ok: bool)
    ensures
        ok == acceptable(axis, *parent, shares@, proposal@),
{
    let count = proposal.len();
    if count != shares.len() || count == 0 {
        return false;
    }
    let across = axis.turn();
    let begin = parent.begin_along(axis);
    let end = parent.end_along(axis);
    if proposal[0].begin_along(axis) != begin || proposal[count - 1].end_along(axis) != end {
        return false;
    }
    let mut i: usize = 0;
    while i < count
        invariant
            i <= count,
            count == proposal@.len(),
            count == shares@.len(),
            across == axis.turned(),
            begin == parent.begin(axis),
            end == parent.end(axis),
            forall|j: int| 0 <= j < i ==> (#[trigger] proposal@[j]).spans_like(*parent, axis),
            forall|j: int|
                0 < j < i ==> (#[trigger] proposal@[j]).begin(axis) == proposal@[j - 1].end(axis),
            forall|j: int|
                0 <= j < i ==> keeps_share(
                    (#[trigger] proposal@[j]).extent(axis),
                    parent.extent(axis),
                    shares@[j] as int,
                ),
        decreases count - i,
    {
        let part = &proposal[i];
        let part_begin = part.begin_along(axis);
        let spans = part.begin_along(across) == parent.begin_along(across)
            && part.end_along(across) == parent.end_along(across);
        let joins = i == 0 || part_begin == proposal[i - 1].end_along(axis);
        let kept = share_kept(part.end_along(axis) - part_begin, end - begin, shares[i]);
        if !(spans && joins && kept) {
            assert(!acceptable(axis, *parent, shares@, proposal@)) by {
                let _ = proposal@[i as int];
            }
            return false;
        }
        i += 1;
    }
    true
}

/// Computes the proportional split of `parent` by `shares`.
pub(crate) fn proportional_parts(
    axis: Axis,
    parent: &Region,
    shares: &Vec<u16>,
) -> (parts: Vec<Region>)
    requires
        is_whole(shares@),
    ensures
        parts@ == proportional(axis, *parent, shares@),
{
    let begin = parent.begin_along(axis);
    let whole: u16 = parent.end_along(axis) - begin;
    let mut parts: Vec<Region> = Vec::new();
    let mut sum: u32 = 0;
    let mut reached: u16 = 0;
    let mut i: usize = 0;
    while i < shares.len()
        invariant
            i <= shares@.len(),
            is_whole(shares@),
            begin == parent.begin(axis),
            whole == parent.extent(axis),
            sum == share_sum(shares@, i as int),
            reached == cut(whole as int, shares@, i as int),
            parts@ == proportional(axis, *parent, shares@).take(i as int),
        decreases shares@.len() - i,
    {
        proof {
            cuts_keep_shares(whole as int, shares@, i as int);
            share_sum_grows(shares@, i as int + 1, shares@.len() as int);
        }
        sum = sum + shares[i] as u32;
        assert(whole * sum <= 65535 * 100) by (nonlinear_arith)
            requires
                0 <= whole <= 65535,
                0 <= sum <= 100,
        ;
        let next: u16 = (whole as u32 * sum / 100) as u16;
        parts.push(parent.respan(axis, begin + reached, next - reached));
        assert(parts@ == proportional(axis, *parent, shares@).take(i as int + 1));
        reached = next;
        i += 1;
    }
    assert(parts@ == proportional(axis, *parent, shares@));
    parts
}

/// Settles the split of `parent` by `shares`: keeps `proposal` where it is acceptable and
/// takes the proportional split where it is not. Either way the result is acceptable.
pub(crate) fn settle(
    axis: Axis,
    parent: &Region,
    shares: &Vec<u16>,
    proposal: Vec<Region>,
) -> (parts: Vec<Region>)
    requires
        is_whole(shares@),
    ensures
        parts@ == settled(axis, *parent, shares@, proposal@),
        acceptable(axis, *parent, shares@, parts@),
{
    if accepts(axis, parent, shares, &proposal) {
        proposal
    } else {
        proof {
            proportional_is_acceptable(axis, *parent, shares@);
        }
        proportional_parts(axis, parent, shares)
    }
}

} // verus!
