//! The arithmetic that the geometry is written over.
//!
//! The library never looks inside a coordinate. It hands coordinates to the
//! operations of [`Scalar`] and builds its results from what comes back, so
//! every contract in this crate is stated relative to those operations: it
//! says which operation produced which value from which operands.
use vstd::prelude::*;

verus! {

/// A number type with the operations that planar geometry needs.
///
/// The methods carry no contract. An implementation may round, saturate or
/// propagate non-numbers as it sees fit, and it need not even return the same
/// value for the same operands twice: the library only relies on being allowed
/// to call each method on any operands.
pub trait Scalar: Copy {
    /// The scalar that stands for the whole number `n`.
    fn from_i32(n: i32) -> Self;

    /// `self + rhs`.
    fn plus(self, rhs: Self) -> Self;

    /// `self - rhs`.
    fn minus(self, rhs: Self) -> Self;

    /// `self * rhs`.
    fn times(self, rhs: Self) -> Self;

    /// `self / rhs`.
    fn over(self, rhs: Self) -> Self;

    /// `self` raised to the whole power `n`.
    fn powi(self, n: i32) -> Self;

    /// The square root of `self`.
    fn sqrt(self) -> Self;

    /// The sine of `self`, an angle in radians.
    fn sin(self) -> Self;

    /// The cosine of `self`, an angle in radians.
    fn cos(self) -> Self;

    /// The angle in radians of the vector whose ordinate is `self` and whose
    /// abscissa is `other`.
    fn atan2(self, other: Self) -> Self;

    /// Whether `self` and `rhs` compare equal.
    fn equals(self, rhs: Self) -> bool;
}

/// `value` is something that `S::from_i32(n)` may return.
pub open spec fn from_i32_gives<S: Scalar>(n: i32, value: S) -> bool {
    call_ensures(S::from_i32, (n,), value)
}

/// `sum` is something that `a.plus(b)` may return.
pub open spec fn plus_gives<S: Scalar>(a: S, b: S, sum: S) -> bool {
    call_ensures(S::plus, (a, b), sum)
}

/// `difference` is something that `a.minus(b)` may return.
pub open spec fn minus_gives<S: Scalar>(a: S, b: S, difference: S) -> bool {
    call_ensures(S::minus, (a, b), difference)
}

/// `product` is something that `a.times(b)` may return.
pub open spec fn times_gives<S: Scalar>(a: S, b: S, product: S) -> bool {
    call_ensures(S::times, (a, b), product)
}

/// `quotient` is something that `a.over(b)` may return.
pub open spec fn over_gives<S: Scalar>(a: S, b: S, quotient: S) -> bool {
    call_ensures(S::over, (a, b), quotient)
}

/// `power` is something that `a.powi(n)` may return.
pub open spec fn powi_gives<S: Scalar>(a: S, n: i32, power: S) -> bool {
    call_ensures(S::powi, (a, n), power)
}

/// `root` is something that `a.sqrt()` may return.
pub open spec fn sqrt_gives<S: Scalar>(a: S, root: S) -> bool {
    call_ensures(S::sqrt, (a,), root)
}

/// `sine` is something that `a.sin()` may return.
pub open spec fn sin_gives<S: Scalar>(a: S, sine: S) -> bool {
    call_ensures(S::sin, (a,), sine)
}

/// `cosine` is something that `a.cos()` may return.
pub open spec fn cos_gives<S: Scalar>(a: S, cosine: S) -> bool {
    call_ensures(S::cos, (a,), cosine)
}

/// `angle` is something that `y.atan2(x)` may return.
pub open spec fn atan2_gives<S: Scalar>(y: S, x: S, angle: S) -> bool {
    call_ensures(S::atan2, (y, x), angle)
}

/// `verdict` is something that `a.equals(b)` may return.
pub open spec fn equals_gives<S: Scalar>(a: S, b: S, verdict: bool) -> bool {
    call_ensures(S::equals, (a, b), verdict)
}

} // verus!
