//! Curve points and the segment search used when a curve is evaluated.
//!
//! Positions, levels and tensions are held in thousandths: `x` is the phase
//! position (0..=1000 for 0.0..1.0), `y` the amplitude (1000 is full volume,
//! 0 silence) and `tension` the bend of the segment that starts at the point
//! (-1000..=1000; 0 is linear, positive convex, negative concave).

use vstd::prelude::*;

verus! {

/// One breakpoint of a volume curve, in thousandths.
#[derive(Debug, Clone, Copy, PartialEq, Eq, Structural)]
pub struct CurvePoint {
    pub x: u16,
    pub y: u16,
    pub tension: i16,
}

/// A volume curve: breakpoints ordered by phase position.
#[derive(Debug, Clone)]
pub struct CurveData {
    pub points: Vec<CurvePoint>,
}

/// A point given by its three coordinates in thousandths.
pub open spec fn pt(x: u16, y: u16, tension: i16) -> CurvePoint {
    CurvePoint { x, y, tension }
}

/// The classic pump shape: a fast drop, a short hold and a slow rise.
pub open spec fn default_pump_points() -> Seq<CurvePoint> {
    seq![pt(0, 1000, 0), pt(10, 0, 800), pt(50, 0, 0), pt(600, 850, -300i16), pt(1000, 1000, 0)]
}

/// A curve is well formed when it starts at phase 0, ends at phase 1, its
/// positions strictly increase, its levels lie in 0..=1 and its tensions in
/// -1..=1.
pub open spec fn well_formed_points(points: Seq<CurvePoint>) -> bool {
    &&& points.len() >= 2
    &&& points[0].x == 0
    &&& points.last().x == 1000
    &&& forall|i: int| 0 <= i < points.len() - 1 ==> #[trigger] points[i].x < points[i + 1].x
    &&& forall|i: int|
        0 <= i < points.len() ==> #[trigger] points[i].y <= 1000 && -1000 <= points[i].tension
            <= 1000
}

impl CurveData {
    /// Default: classic pump curve (fast drop, slow rise).
    pub fn default_pump() -> (r: Self)
        ensures
            r.points@ == default_pump_points(),
    {
        CurveData {
            points: vec![
                CurvePoint { x: 0, y: 1000, tension: 0 },
                CurvePoint { x: 10, y: 0, tension: 800 },
                CurvePoint { x: 50, y: 0, tension: 0 },
                CurvePoint { x: 600, y: 850, tension: -300 },
                CurvePoint { x: 1000, y: 1000, tension: 0 },
            ],
        }
    }
}

impl Default for CurveData {
    /// The default curve is the classic pump.
    fn default() -> (r: Self)
        ensures
            r.points@ == default_pump_points(),
    {
        Self::default_pump()
    }
}

/// Whether every answer the test can give for an index below `len` is the
/// one `p` gives, as for a pure comparison such as `xs[i] <= phase`.
pub open spec fn answers_by<F: Fn(usize) -> bool>(
    at_or_before: F,
    p: spec_fn(usize) -> bool,
    len: int,
) -> bool {
    forall|i: usize, b: bool| i < len && #[trigger] at_or_before.ensures((i,), b) ==> b == p(i)
}

/// The left end of the segment that the binary search settles on, starting
/// from the segment range `lo..=hi`, when `p(i)` says whether point `i` lies
/// at or before the phase: it halves the range at `mid = lo + (hi - lo) / 2`,
/// keeping the upper half when `p(mid)` holds and the lower half otherwise,
/// until the range is a single segment.
pub open spec fn binary_search_from(p: spec_fn(usize) -> bool, lo: int, hi: int) -> int
    decreases hi - lo,
{
    if lo + 1 >= hi {
        lo
    } else {
        let mid = lo + (hi - lo) / 2;
        if p(mid as usize) {
            binary_search_from(p, mid, hi)
        } else {
            binary_search_from(p, lo, mid)
        }
    }
}

/// Find, by binary search, the segment `(lo, lo + 1)` of a curve with `len`
/// points that holds the phase being evaluated. `at_or_before(i)` tells
/// whether point `i` lies at or before that phase.
///
/// The left end is the first point or one at or before the phase, and the
/// right end is the last point or one after it; for points ordered by
/// position this is the segment that contains the phase, clamped to the
/// first and last segments. Whatever the order of the points, when the test
/// answers as a predicate `p` does, the segment is the one
/// `binary_search_from(p, 0, len - 1)` describes: the same points are
/// probed, and the same halves kept.
pub fn find_segment<F: Fn(usize) -> bool>(len: usize, at_or_before: &F) -> (r: (usize, usize))
    requires
        len >= 2,
        forall|i: usize| i < len ==> at_or_before.requires((i,)),
    ensures
        r.1 == r.0 + 1,
        r.1 < len,
        r.0 == 0 || at_or_before.ensures((r.0,), true),
        r.1 == len - 1 || at_or_before.ensures((r.1,), false),
        forall|p: spec_fn(usize) -> bool|
            #[trigger] answers_by(*at_or_before, p, len as int) ==> r.0 == binary_search_from(
                p,
                0,
                len - 1,
            ),
{
    let mut lo: usize = 0;
    let mut hi: usize = len - 1;
    while lo + 1 < hi
        invariant
            lo < hi < len,
            forall|i: usize| i < len ==> at_or_before.requires((i,)),
            lo == 0 || at_or_before.ensures((lo,), true),
            hi == len - 1 || at_or_before.ensures((hi,), false),
            forall|p: spec_fn(usize) -> bool|
                #[trigger] answers_by(*at_or_before, p, len as int) ==> binary_search_from(
                    p,
                    lo as int,
                    hi as int,
                ) == binary_search_from(p, 0, len - 1),
        decreases hi - lo,
    {
        let mid = lo + (hi - lo) / 2;
        let below = at_or_before(mid);
        let ghost (old_lo, old_hi) = (lo, hi);
        if below {
            lo = mid;
        } else {
            hi = mid;
        }
        assert forall|p: spec_fn(usize) -> bool|
            #[trigger] answers_by(*at_or_before, p, len as int) implies binary_search_from(
                p,
                lo as int,
                hi as int,
            ) == binary_search_from(p, 0, len - 1) by {
            assert(below == p(mid));
            assert(binary_search_from(p, old_lo as int, old_hi as int) == binary_search_from(
                p,
                lo as int,
                hi as int,
            ));
        }
    }
    (lo, hi)
}

/// Whether `(lo, lo + 1)` meets what `find_segment` promises for the
/// positions `xs` and a phase, with "at or before" read as `xs[i] <= phase`.
pub open spec fn segment_found(xs: Seq<int>, phase: int, lo: int) -> bool {
    &&& 0 <= lo
    &&& lo + 1 < xs.len()
    &&& (lo == 0 || xs[lo] <= phase)
    &&& (lo + 1 == xs.len() - 1 || phase < xs[lo + 1])
}

/// For strictly increasing positions starting at or before the phase, the
/// segment `find_segment` returns is the one that holds the phase (the last
/// one when the phase lies beyond the last point), and no other segment meets
/// its promise.
pub proof fn law_segment_holds_the_phase(xs: Seq<int>, phase: int, lo: int, other: int)
    requires
        xs.len() >= 2,
        forall|i: int, j: int| 0 <= i < j < xs.len() ==> xs[i] < xs[j],
        xs[0] <= phase,
        segment_found(xs, phase, lo),
        segment_found(xs, phase, other),
    ensures
        xs[lo] <= phase,
        phase < xs[lo + 1] || lo + 1 == xs.len() - 1,
        other == lo,
{
    if other < lo {
        assert(xs[other + 1] <= xs[lo]);
    } else if lo < other {
        assert(xs[lo + 1] <= xs[other]);
    }
}

} // verus!
