//! Ellipses with their axes along the coordinate axes.
use vstd::prelude::*;
use crate::scalar::Scalar;
use crate::scalar::from_i32_gives;
use crate::scalar::times_gives;
use crate::scalar::equals_gives;
use crate::point::Point;
use crate::point::cos_times_gives;
use crate::point::sin_times_gives;
use crate::point::cos_times;
use crate::point::sin_times;

verus! {

/// A centre and one radius along each axis. Nothing is asked of the radii:
/// they may be zero or negative.
pub struct Ellipse<S> {
    pub position: Point<S>,
    pub x_radius: S,
    pub y_radius: S,
}

impl<S: Scalar> Ellipse<S> {
    pub(crate) fn new(position: Point<S>, x_radius: S, y_radius: S) -> (ellipse: Ellipse<S>)
        ensures
            ellipse.position == position,
            ellipse.x_radius == x_radius,
            ellipse.y_radius == y_radius,
    {
        Ellipse { position, x_radius, y_radius }
    }

    /// `moved` is something that `self.translate(&delta)` may return: the
    /// centre moved by `delta`, the radii as they were.
    pub open spec fn translate_gives(self, delta: Point<S>, moved: Ellipse<S>) -> bool {
        &&& self.position.translate_gives(delta, moved.position)
        &&& moved.x_radius == self.x_radius
        &&& moved.y_radius == self.y_radius
    }

    /// `self` with the centre moved by `delta`.
    pub fn translate(&self, delta: &Point<S>) -> (moved: Ellipse<S>)
        ensures
            self.translate_gives(*delta, moved),
    {
        Ellipse::new(self.position.translate(delta), self.x_radius, self.y_radius)
    }

    /// `scaled` is something that `self.scale(factor)` may return: the
    /// centre as it was, each radius multiplied by `factor`.
    pub open spec fn scale_gives(self, factor: S, scaled: Ellipse<S>) -> bool {
        &&& scaled.position == self.position
        &&& times_gives(self.x_radius, factor, scaled.x_radius)
        &&& times_gives(self.y_radius, factor, scaled.y_radius)
    }

    /// `self` with both radii multiplied by `factor` and the centre left
    /// where it is.
    pub fn scale(&self, factor: S) -> (scaled: Ellipse<S>)
        ensures
            self.scale_gives(factor, scaled),
    {
        Ellipse::new(
            self.position.clone(),
            self.x_radius.times(factor),
            self.y_radius.times(factor),
        )
    }

    /// `angle` is something the angle of `point` as seen from the centre may
    /// come to: the centre is scaled by minus one, `point` is moved by the
    /// outcome, and the angle of that is taken.
    pub open spec fn bearing_gives(self, point: Point<S>, angle: S) -> bool {
        exists|minus_one: S, mirror: Point<S>, base: Point<S>|
            from_i32_gives(-1i32, minus_one) && #[trigger] self.position.scale_gives(minus_one, mirror)
                && #[trigger] point.translate_gives(mirror, base) && base.angle_gives(angle)
    }

    /// `hit` is something that `self.is_hit(&point)` may return.
    ///
    /// With `angle` the angle of `point` as seen from the centre,
    /// `cos(angle) * x_radius` is compared with `point.x`, the coordinate as
    /// it was given and not the one relative to the centre. Where that does
    /// not hold the answer is no; where it holds the answer is the outcome of
    /// comparing `sin(angle) * y_radius` with `point.y`.
    pub open spec fn is_hit_gives(self, point: Point<S>, hit: bool) -> bool {
        exists|angle: S, on_x: S, x_hit: bool|
            self.bearing_gives(point, angle) && #[trigger] cos_times_gives(
                angle,
                self.x_radius,
                on_x,
            ) && #[trigger] equals_gives(on_x, point.x, x_hit) && if x_hit {
                exists|on_y: S|
                    sin_times_gives(angle, self.y_radius, on_y) && #[trigger] equals_gives(
                        on_y,
                        point.y,
                        hit,
                    )
            } else {
                !hit
            }
    }

    /// Whether `point` compares equal, coordinate by coordinate, to the
    /// point of the outline that lies under the angle of `point` as seen from
    /// the centre.
    pub fn is_hit(&self, point: &Point<S>) -> (hit: bool)
        ensures
            self.is_hit_gives(*point, hit),
    {
        let minus_one = S::from_i32(-1);
        let mirror = self.position.scale(minus_one);
        let base = point.translate(&mirror);
        let angle = base.angle();
        let on_x = cos_times(angle, self.x_radius);
        let x_hit = on_x.equals(point.x);
        assert(equals_gives(on_x, point.x, x_hit));
        if !x_hit {
            return false;
        }
        let on_y = sin_times(angle, self.y_radius);
        let hit = on_y.equals(point.y);
        assert(equals_gives(on_y, point.y, hit));
        hit
    }
}

/// The ellipse with the centre `position` and the radii `x_radius` and
/// `y_radius`.
pub fn create_ellipse<S: Scalar>(position: Point<S>, x_radius: S, y_radius: S) -> (ellipse: Ellipse<
    S,
>)
    ensures
        ellipse.position == position,
        ellipse.x_radius == x_radius,
        ellipse.y_radius == y_radius,
{
    Ellipse::new(position, x_radius, y_radius)
}

} // verus!
