//! Angular layout of the menu's segments.
//!
//! A turn is divided into `2 * n` equal sectors and segment `i` covers sector
//! `i`, so that its centre lies at angle `2 * pi * i / (2 * n)`. This packing
//! follows the hand-drawn segment art and is deliberately not `n` equal slices.
use vstd::prelude::*;

verus! {

/// The number of segments of the menu as drawn.
pub const DEFAULT_SEGMENT_COUNT: usize = 8;

/// The largest segment count whose sector count still fits in a `usize`.
pub const MAX_SEGMENT_COUNT: usize = usize::MAX / 2;

/// One segment of the menu: its index and the angular sector it covers.
///
/// The sector is `[sector_start, sector_end)` in units of one
/// `sectors_per_turn`-th of a full turn.
#[derive(Clone, Copy, Debug, PartialEq, Eq, Structural)]
pub struct SegmentSpec {
    pub index: usize,
    pub sector_start: usize,
    pub sector_end: usize,
    pub sectors_per_turn: usize,
}

/// The spec of segment `i` in a menu of `n` segments.
pub open spec fn segment_spec(n: nat, i: nat) -> SegmentSpec {
    SegmentSpec {
        index: i as usize,
        sector_start: i as usize,
        sector_end: (i + 1) as usize,
        sectors_per_turn: (2 * n) as usize,
    }
}

/// `specs` is the layout of a menu of `n` segments.
pub open spec fn is_layout(n: nat, specs: Seq<SegmentSpec>) -> bool {
    &&& specs.len() == n
    &&& forall|i: int| 0 <= i < n ==> #[trigger] specs[i] == segment_spec(n, i as nat)
}

pub open spec fn valid_segment_count(n: nat) -> bool {
    1 <= n <= MAX_SEGMENT_COUNT
}

/// Lays out `segment_count` segments.
pub fn layout(segment_count: usize) -> (r: Vec<SegmentSpec>)
    requires
        valid_segment_count(segment_count as nat),
    ensures
        is_layout(segment_count as nat, r@),
{
    let mut specs: Vec<SegmentSpec> = Vec::new();
    let per_turn: usize = 2 * segment_count;
    let mut i: usize = 0;
    while i < segment_count
        invariant
            i <= segment_count,
            valid_segment_count(segment_count as nat),
            per_turn == 2 * segment_count,
            specs@.len() == i,
            forall|k: int| 0 <= k < i ==> #[trigger] specs@[k] == segment_spec(segment_count as nat, k as nat),
        decreases segment_count - i,
    {
        specs.push(SegmentSpec { index: i, sector_start: i, sector_end: i + 1, sectors_per_turn: per_turn });
        i = i + 1;
    }
    specs
}

/// Laying out the same number of segments twice gives the same specs: the
/// contract of `layout` leaves exactly one possible result.
pub proof fn layout_is_deterministic(n: nat, a: Seq<SegmentSpec>, b: Seq<SegmentSpec>)
    requires
        is_layout(n, a),
        is_layout(n, b),
    ensures
        a == b,
{
    assert(a =~= b);
}

} // verus!
