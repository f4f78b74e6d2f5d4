//! What a cluster charges: a schedule of flat fees that it quotes, and the
//! curve that turns the growth a session brought into the session's fee rate.

use crate::decimal::narrowable;
use crate::decimal::quotient;
use crate::decimal::representable;
use crate::decimal::scale;
use crate::decimal::Decimal;
use vstd::prelude::*;

verus! {

/// Fee amounts quoted for each operation, in the fee resource.
#[derive(Debug, Clone, Copy, PartialEq, Eq, Structural)]
pub struct FeeStructure {
    pub open: Decimal,
    pub close: Decimal,
    pub execute: Decimal,
}

impl FeeStructure {
    /// The schedule a new cluster starts with: 16 to open, 4 to close, 4 to
    /// execute.
    pub fn default() -> (r: FeeStructure)
        ensures
            r.open.attos() == 16 * scale(),
            r.close.attos() == 4 * scale(),
            r.execute.attos() == 4 * scale(),
    {
        FeeStructure {
            open: Decimal::from_units(16),
            close: Decimal::from_units(4),
            execute: Decimal::from_units(4),
        }
    }

    /// Replaces each fee for which a new amount is given and keeps the others.
    pub fn set(&mut self, open: Option<Decimal>, close: Option<Decimal>, execute: Option<Decimal>)
        ensures
            final(self).open == (match open {
                Some(fee) => fee,
                None => old(self).open,
            }),
            final(self).close == (match close {
                Some(fee) => fee,
                None => old(self).close,
            }),
            final(self).execute == (match execute {
                Some(fee) => fee,
                None => old(self).execute,
            }),
    {
        self.open = open.unwrap_or(self.open);
        self.close = close.unwrap_or(self.close);
        self.execute = execute.unwrap_or(self.execute);
    }
}

/// One breakpoint of a fee curve.
#[derive(Debug, Clone, Copy, PartialEq, Eq, Structural)]
pub struct FeePoint {
    /// The liquidity delta at which the breakpoint lies.
    pub x: Decimal,
    /// The fee rate at that delta.
    pub y: Decimal,
}

/// Why a list of breakpoints was refused.
#[derive(Debug, Clone, Copy, PartialEq, Eq, Structural)]
pub enum FeeError {
    /// Fewer than two breakpoints.
    TooFewPoints,
    /// A breakpoint does not lie to the right of the one before it.
    NotStrictlyIncreasing,
}

/// Whether each breakpoint lies strictly to the right of those before it.
pub open spec fn strictly_increasing(points: Seq<FeePoint>) -> bool {
    forall|i: int, j: int|
        0 <= i < j < points.len() ==> (#[trigger] points[i]).x.attos() < (
        #[trigger] points[j]).x.attos()
}

/// Whether no breakpoint has a lower rate than one to its left.
pub open spec fn rates_non_decreasing(points: Seq<FeePoint>) -> bool {
    forall|i: int, j: int|
        0 <= i <= j < points.len() ==> (#[trigger] points[i]).y.attos() <= (
        #[trigger] points[j]).y.attos()
}

/// Why `points` cannot be a fee curve, if it cannot.
pub open spec fn points_refusal(points: Seq<FeePoint>) -> Option<FeeError> {
    if points.len() < 2 {
        Some(FeeError::TooFewPoints)
    } else if !strictly_increasing(points) {
        Some(FeeError::NotStrictlyIncreasing)
    } else {
        None
    }
}

/// Whether `points` can be a fee curve: at least two breakpoints, strictly
/// increasing in `x`.
pub open spec fn valid_points(points: Seq<FeePoint>) -> bool {
    points_refusal(points).is_none()
}

/// The slope between two breakpoints `dx > 0` apart whose rates differ by
/// `dy`, as a fixed-point number rounded toward zero.
pub open spec fn steepness(dy: int, dx: int) -> int {
    quotient(dy * scale(), dx)
}

/// How far the rate has moved `t` to the right of a breakpoint, on a segment
/// `dx` wide over which the rate changes by `dy`; rounded toward zero.
pub open spec fn rise(dy: int, dx: int, t: int) -> int {
    quotient(steepness(dy, dx) * t, scale())
}

/// The slope of the segment from `left` to `right` as the ledger's number
/// format holds it. A segment has none when it has no width, or when its
/// height, its width or the slope itself is beyond what the format holds:
/// with a height or a width of more than `2^191` subunits, or more than
/// about `3 * 10^39` times as high as wide.
pub open spec fn slope(left: FeePoint, right: FeePoint) -> Option<int> {
    let dy = right.y.attos() - left.y.attos();
    let dx = right.x.attos() - left.x.attos();
    if dx == 0 || !representable(dy) || !representable(dx) || !narrowable(steepness(dy, dx)) {
        None
    } else {
        Some(steepness(dy, dx))
    }
}

/// The rate at `x` on the segment from `left` to `right`: the left rate
/// plus the rise along the segment's slope. A segment without a slope has
/// the rate of its left end throughout.
pub open spec fn interpolation(left: FeePoint, right: FeePoint, x: int) -> int {
    match slope(left, right) {
        None => left.y.attos(),
        Some(_) => left.y.attos() + rise(
            right.y.attos() - left.y.attos(),
            right.x.attos() - left.x.attos(),
            x - left.x.attos(),
        ),
    }
}

/// Whether `x` lies on segment `i` of `points`, the left end included.
pub open spec fn in_segment(points: Seq<FeePoint>, i: int, x: int) -> bool {
    0 <= i < points.len() - 1 && points[i].x.attos() <= x < points[i + 1].x.attos()
}

/// The segment of `points` on which `x` lies.
pub open spec fn segment_of(points: Seq<FeePoint>, x: int) -> int {
    choose|i: int| in_segment(points, i, x)
}

/// The fee rate of the curve `points` at `x`: the first rate to the left of
/// the first breakpoint, the last rate from the last breakpoint on, and the
/// linear interpolation in between.
pub open spec fn rate_at(points: Seq<FeePoint>, x: int) -> int {
    if x < points[0].x.attos() {
        points[0].y.attos()
    } else if x >= points.last().x.attos() {
        points.last().y.attos()
    } else {
        let i = segment_of(points, x);
        interpolation(points[i], points[i + 1], x)
    }
}

/// The fee rate for a session that changed liquidity by `delta`: nothing
/// when liquidity did not grow, the curve's rate at `delta` otherwise.
pub open spec fn rate_for_delta(points: Seq<FeePoint>, delta: int) -> int {
    if delta <= 0 {
        0
    } else {
        rate_at(points, delta)
    }
}

/// For a change `e >= 0` over a width `dx`, and `t` within the width: the
/// slope, its product with `t`, and the rise are all at least zero, and the
/// rise does not exceed `e`.
pub proof fn lemma_rise_magnitude(e: int, dx: int, t: int)
    requires
        0 <= e,
        0 < dx,
        0 <= t <= dx,
    ensures
        0 <= (e * scale()) / dx <= e * scale(),
        0 <= ((e * scale()) / dx) * t <= e * scale(),
        0 <= (((e * scale()) / dx) * t) / scale() <= e,
        t < dx && 0 < e ==> (((e * scale()) / dx) * t) / scale() < e,
{
    let a = e * scale();
    let s = a / dx;
    assert(0 <= s && s * dx <= a && s <= a) by (nonlinear_arith)
        requires
            0 <= a,
            0 < dx,
            s == a / dx,
    ;
    assert(0 <= s * t <= a) by (nonlinear_arith)
        requires
            0 <= s,
            0 <= t <= dx,
            s * dx <= a,
    ;
    if t < dx && 0 < e {
        let p = s * t;
        assert(p + s <= a) by (nonlinear_arith)
            requires
                0 <= s,
                0 <= t < dx,
                s * dx <= a,
                p == s * t,
        ;
        if s == 0 {
            assert(p == 0) by (nonlinear_arith)
                requires
                    s == 0,
                    p == s * t,
            ;
        }
        assert(p / scale() < e);
    }
}

/// On a segment over which the rate does not fall, the rise does not fall
/// as one moves right.
pub proof fn lemma_rise_monotone(dy: int, dx: int, t1: int, t2: int)
    requires
        0 <= dy,
        0 < dx,
        0 <= t1 <= t2,
    ensures
        rise(dy, dx, t1) <= rise(dy, dx, t2),
{
    let a = dy * scale();
    let s = a / dx;
    assert(0 <= s) by (nonlinear_arith)
        requires
            0 <= a,
            0 < dx,
            s == a / dx,
    ;
    assert(0 <= s * t1 <= s * t2) by (nonlinear_arith)
        requires
            0 <= s,
            0 <= t1 <= t2,
    ;
}

/// Within a segment the rise stays between zero and the change of rate over
/// the whole segment, and so does the slope between zero and that change
/// scaled.
pub proof fn lemma_rise_bounds(dy: int, dx: int, t: int)
    requires
        0 < dx,
        0 <= t <= dx,
    ensures
        dy >= 0 ==> 0 <= steepness(dy, dx) <= dy * scale() && 0 <= rise(dy, dx, t) <= dy,
        dy < 0 ==> dy * scale() <= steepness(dy, dx) <= 0 && dy <= rise(dy, dx, t) <= 0,
        dy < 0 && t < dx ==> dy < rise(dy, dx, t),
{
    if dy >= 0 {
        lemma_rise_magnitude(dy, dx, t);
    } else {
        let e = -dy;
        lemma_rise_magnitude(e, dx, t);
        let s = (e * scale()) / dx;
        assert(-(dy * scale()) == e * scale());
        assert(steepness(dy, dx) == -s);
        assert((-s) * t == -(s * t)) by (nonlinear_arith);
    }
}

/// With strictly increasing breakpoints a point lies on one segment only.
pub proof fn lemma_segment_is_unique(points: Seq<FeePoint>, i: int, j: int, x: int)
    requires
        strictly_increasing(points),
        in_segment(points, i, x),
        in_segment(points, j, x),
    ensures
        i == j,
{
    if i < j {
        if i + 1 < j {
            assert(points[i + 1].x.attos() < points[j].x.attos());
        }
    } else if j < i {
        if j + 1 < i {
            assert(points[j + 1].x.attos() < points[i].x.attos());
        }
    }
}

/// The rate on a segment lies between the rates of the segment's two ends.
pub proof fn lemma_interpolation_bounds(left: FeePoint, right: FeePoint, x: int)
    requires
        left.x.attos() < right.x.attos(),
        left.x.attos() <= x <= right.x.attos(),
    ensures
        left.y.attos() <= right.y.attos() ==> left.y.attos() <= interpolation(left, right, x)
            <= right.y.attos(),
        left.y.attos() > right.y.attos() ==> right.y.attos() <= interpolation(left, right, x)
            <= left.y.attos(),
{
    lemma_rise_bounds(
        right.y.attos() - left.y.attos(),
        right.x.attos() - left.x.attos(),
        x - left.x.attos(),
    );
}

/// The rate of a valid curve lies between the lowest and the highest rate
/// of its breakpoints when those do not fall from left to right.
pub proof fn lemma_rate_within_ends(points: Seq<FeePoint>, x: int)
    requires
        valid_points(points),
        rates_non_decreasing(points),
    ensures
        points[0].y.attos() <= rate_at(points, x) <= points.last().y.attos(),
{
    if x < points[0].x.attos() {
    } else if x >= points.last().x.attos() {
    } else {
        lemma_some_segment(points, x);
        let i = segment_of(points, x);
        lemma_interpolation_bounds(points[i], points[i + 1], x);
    }
}

/// A point at or after the first breakpoint and before the last lies on a
/// segment.
pub proof fn lemma_some_segment(points: Seq<FeePoint>, x: int)
    requires
        points.len() >= 2,
        points[0].x.attos() <= x < points.last().x.attos(),
    ensures
        in_segment(points, segment_of(points, x), x),
{
    let i = first_segment_ending_after(points, x, 0);
    assert(in_segment(points, i, x));
}

/// Walks right from segment `from` to the segment on which `x` lies.
proof fn first_segment_ending_after(points: Seq<FeePoint>, x: int, from: int) -> (i: int)
    requires
        0 <= from < points.len() - 1,
        points[from].x.attos() <= x < points.last().x.attos(),
    ensures
        in_segment(points, i, x),
    decreases points.len() - from,
{
    if x < points[from + 1].x.attos() {
        from
    } else {
        first_segment_ending_after(points, x, from + 1)
    }
}

/// Fee monotonicity: on a valid curve whose rates do not fall from left to
/// right, a larger delta never gets a lower rate.
pub proof fn lemma_rate_is_monotone(points: Seq<FeePoint>, x1: int, x2: int)
    requires
        valid_points(points),
        rates_non_decreasing(points),
        x1 < x2,
    ensures
        rate_at(points, x1) <= rate_at(points, x2),
{
    let first = points[0].x.attos();
    let last = points.last().x.attos();
    lemma_rate_within_ends(points, x1);
    lemma_rate_within_ends(points, x2);
    if x1 < first {
    } else if x2 >= last {
    } else {
        lemma_some_segment(points, x1);
        lemma_some_segment(points, x2);
        let i = segment_of(points, x1);
        let j = segment_of(points, x2);
        let dy = points[i + 1].y.attos() - points[i].y.attos();
        let dx = points[i + 1].x.attos() - points[i].x.attos();
        if i == j {
            lemma_rise_monotone(dy, dx, x1 - points[i].x.attos(), x2 - points[i].x.attos());
        } else {
            if j < i {
                if j + 1 < i {
                    assert(points[j + 1].x.attos() < points[i].x.attos());
                }
            }
            assert(i < j);
            lemma_interpolation_bounds(points[i], points[i + 1], x1);
            lemma_interpolation_bounds(points[j], points[j + 1], x2);
            assert(points[i + 1].y.attos() <= points[j].y.attos());
        }
    }
}

/// The same for the rate charged on a delta: it never falls as the delta
/// grows, given rates that do not fall from left to right and start at
/// zero or above. A curve that starts below zero charges less on a small
/// growth than the nothing it charges on none.
pub proof fn lemma_rate_for_delta_is_monotone(points: Seq<FeePoint>, d1: int, d2: int)
    requires
        valid_points(points),
        rates_non_decreasing(points),
        0 <= points[0].y.attos(),
        d1 < d2,
    ensures
        rate_for_delta(points, d1) <= rate_for_delta(points, d2),
{
    if d1 <= 0 {
        if d2 > 0 {
            lemma_rate_within_ends(points, d2);
        }
    } else {
        lemma_rate_is_monotone(points, d1, d2);
    }
}

/// The rate at `x` on the segment from `left` to `right`.
fn interpolate(left: FeePoint, right: FeePoint, x: Decimal) -> (r: Decimal)
    requires
        left.x.attos() <= x.attos() < right.x.attos(),
    ensures
        r.attos() == interpolation(left, right, x.attos()),
{
    proof {
        left.x.lemma_attos_in_range();
        right.x.lemma_attos_in_range();
        left.y.lemma_attos_in_range();
        right.y.lemma_attos_in_range();
    }
    let change = match right.y.checked_sub(left.y) {
        Some(change) => change,
        None => {
            return left.y;
        },
    };
    let width = match right.x.checked_sub(left.x) {
        Some(width) => width,
        None => {
            return left.y;
        },
    };
    let slope = match change.checked_div(width) {
        Some(slope) => slope,
        None => {
            return left.y;
        },
    };
    proof {
        lemma_rise_bounds(change.attos(), width.attos(), x.attos() - left.x.attos());
    }
    let offset = match x.checked_sub(left.x) {
        Some(offset) => offset,
        None => {
            return left.y;
        },
    };
    let rise = match slope.checked_mul(offset) {
        Some(rise) => rise,
        None => {
            return left.y;
        },
    };
    match left.y.checked_add(rise) {
        Some(rate) => rate,
        None => left.y,
    }
}

/// A piecewise-linear fee curve: breakpoints in strictly increasing order,
/// kept behind a setter that refuses any other list.
#[derive(Debug)]
pub struct FeeCurve {
    points: Vec<FeePoint>,
}

impl View for FeeCurve {
    type V = Seq<FeePoint>;

    closed spec fn view(&self) -> Seq<FeePoint> {
        self.points@
    }
}

/// Looks for a reason to refuse `points`.
fn check_points(points: &Vec<FeePoint>) -> (r: Option<FeeError>)
    ensures
        r == points_refusal(points@),
{
    let n = points.len();
    if n < 2 {
        return Some(FeeError::TooFewPoints);
    }
    let mut j: usize = 1;
    while j < n
        invariant
            n == points@.len(),
            n >= 2,
            1 <= j <= n,
            forall|a: int, b: int|
                0 <= a < b < j ==> (#[trigger] points@[a]).x.attos() < (
                #[trigger] points@[b]).x.attos(),
        decreases n - j,
    {
        if !points[j - 1].x.lt(&points[j].x) {
            assert(!(points@[j - 1].x.attos() < points@[j as int].x.attos()));
            return Some(FeeError::NotStrictlyIncreasing);
        }
        assert forall|a: int, b: int| 0 <= a < b < j + 1 implies (#[trigger] points@[a]).x.attos()
            < (#[trigger] points@[b]).x.attos() by {
            if b == j {
                if a < j - 1 {
                    assert(points@[a].x.attos() < points@[j - 1].x.attos());
                }
            }
        }
        j += 1;
    }
    None
}

impl FeeCurve {
    #[verifier::type_invariant]
    spec fn well_formed(self) -> bool {
        valid_points(self.points@)
    }

    /// The curve a new cluster starts with: no fee at no growth, rising
    /// evenly to one percent at a growth of ten thousand, flat from there.
    pub fn default() -> (r: FeeCurve)
        ensures
            r@.len() == 2,
            r@[0].x.attos() == 0,
            r@[0].y.attos() == 0,
            r@[1].x.attos() == 10_000 * scale(),
            r@[1].y.attos() == scale() / 100,
            valid_points(r@),
            rates_non_decreasing(r@),
    {
        let mut points: Vec<FeePoint> = Vec::new();
        points.push(FeePoint { x: Decimal::zero(), y: Decimal::zero() });
        points.push(
            FeePoint {
                x: Decimal::from_units(10_000),
                y: Decimal::from_attos(10_000_000_000_000_000),
            },
        );
        FeeCurve { points }
    }

    /// A curve through `points`, or the reason why there is none.
    pub fn new(points: Vec<FeePoint>) -> (r: Result<FeeCurve, FeeError>)
        ensures
            match points_refusal(points@) {
                Some(e) => r == Err::<FeeCurve, FeeError>(e),
                None => r.is_ok() && r.unwrap()@ == points@,
            },
    {
        match check_points(&points) {
            Some(e) => Err(e),
            None => Ok(FeeCurve { points }),
        }
    }

    /// The breakpoints, left to right. They always form a valid curve.
    pub fn points(&self) -> (r: &Vec<FeePoint>)
        ensures
            r@ == self@,
            valid_points(self@),
    {
        proof {
            use_type_invariant(self);
        }
        &self.points
    }

    /// Replaces the breakpoints by `new_points` if those form a valid curve;
    /// refuses them otherwise and keeps the curve as it was.
    pub fn set_points(&mut self, new_points: Vec<FeePoint>) -> (r: Result<(), FeeError>)
        ensures
            match points_refusal(new_points@) {
                Some(e) => r == Err::<(), FeeError>(e) && final(self)@ == old(self)@,
                None => r.is_ok() && final(self)@ == new_points@,
            },
    {
        match check_points(&new_points) {
            Some(e) => Err(e),
            None => {
                self.points = new_points;
                Ok(())
            },
        }
    }

    /// The fee rate at `x`. Never fails.
    pub fn rate_at(&self, x: Decimal) -> (r: Decimal)
        ensures
            r.attos() == rate_at(self@, x.attos()),
    {
        proof {
            use_type_invariant(self);
        }
        let n = self.points.len();
        if x.lt(&self.points[0].x) {
            return self.points[0].y;
        }
        let mut i: usize = 0;
        while i + 1 < n && self.points[i + 1].x.le(&x)
            invariant
                n == self.points@.len(),
                n >= 2,
                i < n,
                self.points@[i as int].x.attos() <= x.attos(),
            decreases n - i,
        {
            i += 1;
        }
        if i + 1 == n {
            return self.points[i].y;
        }
        proof {
            assert(in_segment(self.points@, i as int, x.attos()));
            if i + 2 < n {
                assert(self.points@[i + 1].x.attos() < self.points@[n - 1].x.attos());
            }
            lemma_some_segment(self.points@, x.attos());
            lemma_segment_is_unique(
                self.points@,
                i as int,
                segment_of(self.points@, x.attos()),
                x.attos(),
            );
        }
        interpolate(self.points[i], self.points[i + 1], x)
    }

    /// The fee rate for a session that changed liquidity by `delta`: zero
    /// when liquidity did not grow.
    pub fn rate_for_delta(&self, delta: Decimal) -> (r: Decimal)
        ensures
            r.attos() == rate_for_delta(self@, delta.attos()),
    {
        if delta.is_positive() {
            self.rate_at(delta)
        } else {
            Decimal::zero()
        }
    }
}

} // verus!
