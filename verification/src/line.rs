//! Lines through two points.
use vstd::prelude::*;
use crate::scalar::Scalar;
use crate::scalar::from_i32_gives;
use crate::scalar::plus_gives;
use crate::scalar::minus_gives;
use crate::scalar::times_gives;
use crate::scalar::over_gives;
use crate::scalar::equals_gives;
use crate::point::Point;
use crate::point::create_point;

verus! {

/// An ordered pair of points. The two may coincide.
pub struct Line<S> {
    pub start: Point<S>,
    pub end: Point<S>,
}

/// `product` is something that `(a1 - a0) * (b1 - b0)` may come to.
pub open spec fn span_product_gives<S: Scalar>(a1: S, a0: S, b1: S, b0: S, product: S) -> bool {
    exists|da: S, db: S|
        minus_gives(a1, a0, da) && minus_gives(b1, b0, db) && #[trigger] times_gives(
            da,
            db,
            product,
        )
}

/// `value` is something that `from + t * (to - from)` may come to.
pub open spec fn along_gives<S: Scalar>(from: S, to: S, t: S, value: S) -> bool {
    exists|span: S, step: S|
        minus_gives(to, from, span) && #[trigger] times_gives(t, span, step) && plus_gives(
            from,
            step,
            value,
        )
}

/// `middle` is something that `(a + b) / 2` may come to.
pub open spec fn halfway_gives<S: Scalar>(a: S, b: S, middle: S) -> bool {
    exists|sum: S, two: S|
        plus_gives(a, b, sum) && from_i32_gives(2, two) && #[trigger] over_gives(sum, two, middle)
}

fn span_product<S: Scalar>(a1: S, a0: S, b1: S, b0: S) -> (product: S)
    ensures
        span_product_gives(a1, a0, b1, b0, product),
{
    let da = a1.minus(a0);
    let db = b1.minus(b0);
    let product = da.times(db);
    assert(times_gives(da, db, product));
    product
}

fn along<S: Scalar>(from: S, to: S, t: S) -> (value: S)
    ensures
        along_gives(from, to, t, value),
{
    let span = to.minus(from);
    let step = t.times(span);
    let value = from.plus(step);
    assert(times_gives(t, span, step));
    value
}

fn halfway<S: Scalar>(a: S, b: S) -> (middle: S)
    ensures
        halfway_gives(a, b, middle),
{
    let sum = a.plus(b);
    let two = S::from_i32(2);
    let middle = sum.over(two);
    assert(over_gives(sum, two, middle));
    middle
}

impl<S: Scalar> Line<S> {
    pub(crate) fn new(start: Point<S>, end: Point<S>) -> (line: Line<S>)
        ensures
            line.start == start,
            line.end == end,
    {
        Line { start, end }
    }

    /// `length` is something that `self.length()` may return: what
    /// `distance_to` may return from the start to the end.
    pub open spec fn length_gives(self, length: S) -> bool {
        self.start.distance_to_gives(self.end, length)
    }

    /// The distance between the two end points.
    pub fn length(&self) -> (length: S)
        ensures
            self.length_gives(length),
    {
        self.start.distance_to(&self.end)
    }

    /// `angle` is something that `self.angle()` may return: what `angle_to`
    /// may return for the start and the end.
    pub open spec fn angle_gives(self, angle: S) -> bool {
        self.start.angle_to_gives(self.end, angle)
    }

    /// The angle of the vector that leads from the end to the start.
    pub fn angle(&self) -> (angle: S)
        ensures
            self.angle_gives(angle),
    {
        self.start.angle_to(&self.end)
    }

    /// `hit` is something that `self.is_hit(&p)` may return.
    ///
    /// Two distances are taken, both from the start to `p`, and their sum is
    /// compared with the length of the line. The end takes part through the
    /// length alone.
    pub open spec fn is_hit_gives(self, p: Point<S>, hit: bool) -> bool {
        exists|first: S, second: S, sum: S, length: S|
            self.start.distance_to_gives(p, first) && self.start.distance_to_gives(p, second)
                && #[trigger] plus_gives(first, second, sum) && self.length_gives(length)
                && #[trigger] equals_gives(sum, length, hit)
    }

    /// Whether twice the way from the start to `p` compares equal to the
    /// length of the line.
    pub fn is_hit(&self, p: &Point<S>) -> (hit: bool)
        ensures
            self.is_hit_gives(*p, hit),
    {
        let first = self.start.distance_to(p);
        let second = self.start.distance_to(p);
        let sum = first.plus(second);
        assert(plus_gives(first, second, sum));
        let length = self.length();
        let hit = sum.equals(length);
        assert(equals_gives(sum, length, hit));
        hit
    }

    /// `d` is something the determinant of the two directions may come to:
    /// `(y4 - y3) * (x2 - x1) - (x4 - x3) * (y2 - y1)`, where `self` runs
    /// from `(x1, y1)` to `(x2, y2)` and `other` from `(x3, y3)` to
    /// `(x4, y4)`.
    pub open spec fn denominator_gives(self, other: Line<S>, d: S) -> bool {
        exists|p: S, q: S|
            span_product_gives(other.end.y, other.start.y, self.end.x, self.start.x, p)
                && span_product_gives(other.end.x, other.start.x, self.end.y, self.start.y, q)
                && #[trigger] minus_gives(p, q, d)
    }

    /// `n` is something the numerator of the position along `self` may come
    /// to: `(x4 - x3) * (y1 - y3) - (y4 - y3) * (x1 - x3)`.
    pub open spec fn numerator_gives(self, other: Line<S>, n: S) -> bool {
        exists|p: S, q: S|
            span_product_gives(other.end.x, other.start.x, self.start.y, other.start.y, p)
                && span_product_gives(other.end.y, other.start.y, self.start.x, other.start.x, q)
                && #[trigger] minus_gives(p, q, n)
    }

    /// `crossing` is the point that the position `n / d` along `self` may
    /// come to.
    pub open spec fn crossing_gives(self, n: S, d: S, crossing: Point<S>) -> bool {
        exists|ua: S| #[trigger]
            over_gives(n, d, ua) && along_gives(self.start.x, self.end.x, ua, crossing.x)
                && along_gives(self.start.y, self.end.y, ua, crossing.y)
    }

    /// `found` is something that `self.intersect(&other)` may return.
    ///
    /// The denominator is compared with zero. Where the comparison holds
    /// there is no crossing; where it does not, the crossing is the point at
    /// `numerator / denominator` along `self`, whether or not it lies between
    /// the end points of either line.
    pub open spec fn intersect_gives(self, other: Line<S>, found: Option<Point<S>>) -> bool {
        exists|d: S, zero: S, parallel: bool|
            self.denominator_gives(other, d) && from_i32_gives(0, zero) && #[trigger] equals_gives(
                d,
                zero,
                parallel,
            ) && match found {
                None => parallel,
                Some(crossing) => !parallel && exists|n: S| #[trigger]
                    self.numerator_gives(other, n) && self.crossing_gives(n, d, crossing),
            }
    }

    /// The point where the two lines cross, both taken as endless, or `None`
    /// where their directions have a zero determinant.
    pub fn intersect(&self, line: &Line<S>) -> (found: Option<Point<S>>)
        ensures
            self.intersect_gives(*line, found),
    {
        let p = span_product(line.end.y, line.start.y, self.end.x, self.start.x);
        let q = span_product(line.end.x, line.start.x, self.end.y, self.start.y);
        let d = p.minus(q);
        assert(minus_gives(p, q, d));
        let zero = S::from_i32(0);
        let parallel = d.equals(zero);
        assert(equals_gives(d, zero, parallel));
        if parallel {
            return None;
        }
        let p = span_product(line.end.x, line.start.x, self.start.y, line.start.y);
        let q = span_product(line.end.y, line.start.y, self.start.x, line.start.x);
        let n = p.minus(q);
        assert(minus_gives(p, q, n));
        let ua = n.over(d);
        let crossing = Point {
            x: along(self.start.x, self.end.x, ua),
            y: along(self.start.y, self.end.y, ua),
        };
        assert(over_gives(n, d, ua));
        assert(self.numerator_gives(*line, n));
        Some(crossing)
    }

    /// `angle` is something that `self.angle_to(&line)` may return: the
    /// angle of `self` less the angle of `line`.
    pub open spec fn angle_to_gives(self, line: Line<S>, angle: S) -> bool {
        exists|mine: S, theirs: S|
            self.angle_gives(mine) && line.angle_gives(theirs) && #[trigger] minus_gives(
                mine,
                theirs,
                angle,
            )
    }

    /// The angle between the two lines.
    pub fn angle_to(&self, line: &Line<S>) -> (angle: S)
        ensures
            self.angle_to_gives(*line, angle),
    {
        let mine = self.angle();
        let theirs = line.angle();
        let angle = mine.minus(theirs);
        assert(minus_gives(mine, theirs, angle));
        angle
    }

    /// `middle` is something that `self.middle()` may return: each
    /// coordinate is half the sum of that coordinate of the two end points.
    pub open spec fn middle_gives(self, middle: Point<S>) -> bool {
        halfway_gives(self.start.x, self.end.x, middle.x) && halfway_gives(
            self.start.y,
            self.end.y,
            middle.y,
        )
    }

    /// The point halfway between the two end points.
    pub fn middle(&self) -> (middle: Point<S>)
        ensures
            self.middle_gives(middle),
    {
        Point::new(halfway(self.start.x, self.end.x), halfway(self.start.y, self.end.y))
    }

    /// `turned` is something that `self.rotate(radians)` may return: what
    /// `self.rotate_on` may return for a middle of `self`.
    pub open spec fn rotate_gives(self, radians: S, turned: Line<S>) -> bool {
        exists|middle: Point<S>|
            self.middle_gives(middle) && #[trigger] self.rotate_on_gives(radians, middle, turned)
    }

    /// Rotation by `radians` with the middle of the line as the pivot.
    pub fn rotate(&self, radians: S) -> (turned: Line<S>)
        ensures
            self.rotate_gives(radians, turned),
    {
        let middle = self.middle();
        self.rotate_on(radians, &middle)
    }

    /// `turned` is something that `self.rotate_on(radians, &origin)` may
    /// return: each end point is what `rotate_on` may return for that end
    /// point of `self`.
    pub open spec fn rotate_on_gives(self, radians: S, origin: Point<S>, turned: Line<S>) -> bool {
        self.start.rotate_on_gives(radians, origin, turned.start) && self.end.rotate_on_gives(
            radians,
            origin,
            turned.end,
        )
    }

    /// Rotation by `radians` with `origin` as the pivot, one end point at a
    /// time.
    pub fn rotate_on(&self, radians: S, origin: &Point<S>) -> (turned: Line<S>)
        ensures
            self.rotate_on_gives(radians, *origin, turned),
    {
        let start = self.start.rotate_on(radians, origin);
        let end = self.end.rotate_on(radians, origin);
        Line::new(start, end)
    }

    /// `moved` is something that `self.translate(&delta)` may return: both
    /// end points moved by `delta`.
    pub open spec fn translate_gives(self, delta: Point<S>, moved: Line<S>) -> bool {
        self.start.translate_gives(delta, moved.start) && self.end.translate_gives(
            delta,
            moved.end,
        )
    }

    /// `self` with both end points moved by `delta`.
    pub fn translate(&self, delta: &Point<S>) -> (moved: Line<S>)
        ensures
            self.translate_gives(*delta, moved),
    {
        Line::new(self.start.translate(delta), self.end.translate(delta))
    }

    /// `scaled` is something that `self.scale(factor)` may return: the start
    /// is the start of `self`, and the end is the end of `self` scaled.
    pub open spec fn scale_gives(self, factor: S, scaled: Line<S>) -> bool {
        scaled.start == self.start && self.end.scale_gives(factor, scaled.end)
    }

    /// `self` with the end scaled by `factor` and the start left where it is.
    pub fn scale(&self, factor: S) -> (scaled: Line<S>)
        ensures
            self.scale_gives(factor, scaled),
    {
        Line::new(self.start.clone(), self.end.scale(factor))
    }

    /// A copy of `self`.
    pub fn clone(&self) -> (copy: Line<S>)
        ensures
            copy == *self,
    {
        let start = self.start.clone();
        let end = self.end.clone();
        Line::new(start, end)
    }
}

/// The line from `(x1, y1)` to `(x2, y2)`.
pub fn create_line<S: Scalar>(x1: S, y1: S, x2: S, y2: S) -> (line: Line<S>)
    ensures
        line.start.x == x1,
        line.start.y == y1,
        line.end.x == x2,
        line.end.y == y2,
{
    let start = create_point(x1, y1);
    let end = create_point(x2, y2);
    Line::new(start, end)
}

} // verus!
