//! Points of the plane.
use vstd::prelude::*;
use crate::scalar::Scalar;
use crate::scalar::from_i32_gives;
use crate::scalar::plus_gives;
use crate::scalar::minus_gives;
use crate::scalar::times_gives;
use crate::scalar::powi_gives;
use crate::scalar::sqrt_gives;
use crate::scalar::sin_gives;
use crate::scalar::cos_gives;
use crate::scalar::atan2_gives;

verus! {

/// A pair of coordinates. A point is a value: every operation on it leaves
/// it as it was and returns a new one.
pub struct Point<S> {
    pub x: S,
    pub y: S,
}

/// `square` is something that `(to - from)` raised to the power 2 may come to.
pub open spec fn squared_span_gives<S: Scalar>(to: S, from: S, square: S) -> bool {
    exists|span: S| minus_gives(to, from, span) && #[trigger] powi_gives(span, 2, square)
}

/// `value` is something that `cos(angle) * radius` may come to.
pub open spec fn cos_times_gives<S: Scalar>(angle: S, radius: S, value: S) -> bool {
    exists|cosine: S| #[trigger] cos_gives(angle, cosine) && times_gives(cosine, radius, value)
}

/// `value` is something that `sin(angle) * radius` may come to.
pub open spec fn sin_times_gives<S: Scalar>(angle: S, radius: S, value: S) -> bool {
    exists|sine: S| #[trigger] sin_gives(angle, sine) && times_gives(sine, radius, value)
}

pub(crate) fn cos_times<S: Scalar>(angle: S, radius: S) -> (value: S)
    ensures
        cos_times_gives(angle, radius, value),
{
    let cosine = angle.cos();
    assert(cos_gives(angle, cosine));
    cosine.times(radius)
}

pub(crate) fn sin_times<S: Scalar>(angle: S, radius: S) -> (value: S)
    ensures
        sin_times_gives(angle, radius, value),
{
    let sine = angle.sin();
    assert(sin_gives(angle, sine));
    sine.times(radius)
}

impl<S: Scalar> Point<S> {
    pub(crate) fn new(x: S, y: S) -> (point: Point<S>)
        ensures
            point.x == x,
            point.y == y,
    {
        Point { x, y }
    }

    /// Whether each coordinate is something that zero may come to.
    pub open spec fn is_origin(self) -> bool {
        from_i32_gives(0, self.x) && from_i32_gives(0, self.y)
    }

    fn origin() -> (origin: Point<S>)
        ensures
            origin.is_origin(),
    {
        Point::new(S::from_i32(0), S::from_i32(0))
    }

    /// `angle` is something that `self.angle_to(&p)` may return:
    /// `atan2(self.y - p.y, self.x - p.x)`.
    pub open spec fn angle_to_gives(self, p: Point<S>, angle: S) -> bool {
        exists|dy: S, dx: S|
            minus_gives(self.y, p.y, dy) && minus_gives(self.x, p.x, dx) && #[trigger] atan2_gives(
                dy,
                dx,
                angle,
            )
    }

    /// The angle, in radians, of the vector that leads from `p` to `self`.
    pub fn angle_to(&self, p: &Point<S>) -> (angle: S)
        ensures
            self.angle_to_gives(*p, angle),
    {
        let dy = self.y.minus(p.y);
        let dx = self.x.minus(p.x);
        let angle = dy.atan2(dx);
        assert(atan2_gives(dy, dx, angle));
        angle
    }

    /// `distance` is something that `self.distance_to(&p)` may return:
    /// `sqrt((p.x - self.x)^2 + (p.y - self.y)^2)`.
    pub open spec fn distance_to_gives(self, p: Point<S>, distance: S) -> bool {
        exists|sx: S, sy: S, sum: S|
            squared_span_gives(p.x, self.x, sx) && squared_span_gives(p.y, self.y, sy)
                && #[trigger] plus_gives(sx, sy, sum) && sqrt_gives(sum, distance)
    }

    /// The length of the straight way from `self` to `p`.
    pub fn distance_to(&self, p: &Point<S>) -> (distance: S)
        ensures
            self.distance_to_gives(*p, distance),
    {
        let dx = p.x.minus(self.x);
        let sx = dx.powi(2);
        assert(powi_gives(dx, 2, sx));
        let dy = p.y.minus(self.y);
        let sy = dy.powi(2);
        assert(powi_gives(dy, 2, sy));
        let sum = sx.plus(sy);
        assert(plus_gives(sx, sy, sum));
        sum.sqrt()
    }

    /// `angle` is something that `self.angle()` may return: what
    /// `self.angle_to` may return for an origin.
    pub open spec fn angle_gives(self, angle: S) -> bool {
        exists|origin: Point<S>| origin.is_origin() && #[trigger] self.angle_to_gives(origin, angle)
    }

    /// The angle of `self` as seen from the origin.
    pub fn angle(&self) -> (angle: S)
        ensures
            self.angle_gives(angle),
    {
        let origin = Point::origin();
        self.angle_to(&origin)
    }

    /// `distance` is something that `self.distance()` may return: what
    /// `self.distance_to` may return for an origin.
    pub open spec fn distance_gives(self, distance: S) -> bool {
        exists|origin: Point<S>|
            origin.is_origin() && #[trigger] self.distance_to_gives(origin, distance)
    }

    /// The distance of `self` from the origin.
    pub fn distance(&self) -> (distance: S)
        ensures
            self.distance_gives(distance),
    {
        let origin = Point::origin();
        self.distance_to(&origin)
    }

    /// `turned` is something that `self.rotate(radians)` may return: what
    /// `self.rotate_on` may return for an origin.
    pub open spec fn rotate_gives(self, radians: S, turned: Point<S>) -> bool {
        exists|origin: Point<S>|
            origin.is_origin() && #[trigger] self.rotate_on_gives(radians, origin, turned)
    }

    /// Rotation by `radians` with the origin as the pivot.
    pub fn rotate(&self, radians: S) -> (turned: Point<S>)
        ensures
            self.rotate_gives(radians, turned),
    {
        let origin = Point::origin();
        self.rotate_on(radians, &origin)
    }

    /// `moved` is something that `self.translate(&delta)` may return: the
    /// coordinates of `self` and `delta` added one by one.
    pub open spec fn translate_gives(self, delta: Point<S>, moved: Point<S>) -> bool {
        plus_gives(self.x, delta.x, moved.x) && plus_gives(self.y, delta.y, moved.y)
    }

    /// `self` moved by `delta`.
    pub fn translate(&self, delta: &Point<S>) -> (moved: Point<S>)
        ensures
            self.translate_gives(*delta, moved),
    {
        Point::new(self.x.plus(delta.x), self.y.plus(delta.y))
    }

    /// `scaled` is something that `self.scale(factor)` may return: each
    /// coordinate of `self` multiplied by `factor`.
    pub open spec fn scale_gives(self, factor: S, scaled: Point<S>) -> bool {
        times_gives(self.x, factor, scaled.x) && times_gives(self.y, factor, scaled.y)
    }

    /// `self` with both coordinates multiplied by `factor`.
    pub fn scale(&self, factor: S) -> (scaled: Point<S>)
        ensures
            self.scale_gives(factor, scaled),
    {
        Point::new(self.x.times(factor), self.y.times(factor))
    }

    /// `turned` is something that `self.rotate_on(radians, &origin)` may
    /// return.
    ///
    /// With `d` the distance of `origin` and `a` its angle, the result is
    /// `(cos(a + radians) * d, sin(a + radians) * d)`: the position of the
    /// pivot itself, turned by `radians`. The coordinates of `self` play no
    /// part in it.
    pub open spec fn rotate_on_gives(self, radians: S, origin: Point<S>, turned: Point<S>) -> bool {
        exists|d: S, a: S, sum: S|
            origin.distance_gives(d) && origin.angle_gives(a) && #[trigger] plus_gives(
                a,
                radians,
                sum,
            ) && #[trigger] cos_times_gives(sum, d, turned.x) && sin_times_gives(sum, d, turned.y)
    }

    /// Rotation by `radians` with `origin` as the pivot.
    pub fn rotate_on(&self, radians: S, origin: &Point<S>) -> (turned: Point<S>)
        ensures
            self.rotate_on_gives(radians, *origin, turned),
    {
        let d = origin.distance();
        let a = origin.angle();
        let sum = a.plus(radians);
        assert(plus_gives(a, radians, sum));
        create_point(cos_times(sum, d), sin_times(sum, d))
    }

    /// A copy of `self`.
    pub fn clone(&self) -> (copy: Point<S>)
        ensures
            copy == *self,
    {
        Point::new(self.x, self.y)
    }
}

/// The point with the coordinates `x` and `y`.
pub fn create_point<S: Scalar>(x: S, y: S) -> (point: Point<S>)
    ensures
        point.x == x,
        point.y == y,
{
    Point { x, y }
}

/// `distance` is something that `distance(x1, y1, x2, y2)` may return.
pub open spec fn distance_gives<S: Scalar>(x1: S, y1: S, x2: S, y2: S, distance: S) -> bool {
    (Point { x: x1, y: y1 }).distance_to_gives(Point { x: x2, y: y2 }, distance)
}

/// The distance between `(x1, y1)` and `(x2, y2)`, for a caller that holds
/// no points.
pub fn distance<S: Scalar>(x1: S, y1: S, x2: S, y2: S) -> (distance: S)
    ensures
        distance_gives(x1, y1, x2, y2, distance),
{
    let from = Point::new(x1, y1);
    let to = create_point(x2, y2);
    from.distance_to(&to)
}

/// `angle` is something that `angle(x1, y1, x2, y2)` may return.
pub open spec fn angle_gives<S: Scalar>(x1: S, y1: S, x2: S, y2: S, angle: S) -> bool {
    (Point { x: x1, y: y1 }).angle_to_gives(Point { x: x2, y: y2 }, angle)
}

/// The angle of the vector that leads from `(x2, y2)` to `(x1, y1)`, for a
/// caller that holds no points.
pub fn angle<S: Scalar>(x1: S, y1: S, x2: S, y2: S) -> (angle: S)
    ensures
        angle_gives(x1, y1, x2, y2, angle),
{
    let to = create_point(x1, y1);
    let from = create_point(x2, y2);
    to.angle_to(&from)
}

/// The angle of a point is its angle to the origin: `p.angle()` may return
/// `angle` exactly if `p.angle_to(&origin)` may, for some origin.
pub proof fn law_angle_is_angle_to_origin<S: Scalar>(p: Point<S>, angle: S)
    ensures
        p.angle_gives(angle) <==> exists|origin: Point<S>|
            origin.is_origin() && #[trigger] p.angle_to_gives(origin, angle),
{
}

/// The distance of a point is its distance to the origin: `p.distance()`
/// may return `distance` exactly if `p.distance_to(&origin)` may, for some
/// origin.
pub proof fn law_distance_is_distance_to_origin<S: Scalar>(p: Point<S>, distance: S)
    ensures
        p.distance_gives(distance) <==> exists|origin: Point<S>|
            origin.is_origin() && #[trigger] p.distance_to_gives(origin, distance),
{
}

/// The function `distance` is the method `distance_to` on the points it is
/// given the coordinates of: the two may return the same values. So it is
/// with `p` an origin, where both give a distance from that origin.
pub proof fn law_distance_is_distance_to<S: Scalar>(p: Point<S>, q: Point<S>, distance: S)
    ensures
        distance_gives(p.x, p.y, q.x, q.y, distance) <==> p.distance_to_gives(q, distance),
{
}

/// The function `angle` is the method `angle_to` on the points it is given
/// the coordinates of: the two may return the same values.
pub proof fn law_angle_is_angle_to<S: Scalar>(p: Point<S>, q: Point<S>, angle: S)
    ensures
        angle_gives(p.x, p.y, q.x, q.y, angle) <==> p.angle_to_gives(q, angle),
{
}

/// Rotation on a pivot does not look at the point it is asked of: what it
/// may return for one point it may return for any other.
pub proof fn law_rotate_on_ignores_the_point<S: Scalar>(
    p: Point<S>,
    q: Point<S>,
    radians: S,
    origin: Point<S>,
    turned: Point<S>,
)
    ensures
        p.rotate_on_gives(radians, origin, turned) <==> q.rotate_on_gives(radians, origin, turned),
{
}

} // verus!
