//! Planar geometry over any arithmetic: points, lines and ellipses, and the
//! distances, angles, moves and crossings between them.
//!
//! Coordinates, radii and angles are of a type `S` that implements
//! [`Scalar`]. Beside every operation `f` stands a predicate `f_gives` that
//! says which values `f` may return, in terms of what the operations of `S`
//! may return for which operands. The contract of `f` is that its result is
//! one of them.
pub mod scalar;
pub mod point;
pub mod line;
pub mod ellipse;

pub use crate::scalar::Scalar;
pub use crate::point::Point;
pub use crate::point::create_point;
pub use crate::point::distance;
pub use crate::point::angle;
pub use crate::line::Line;
pub use crate::line::create_line;
pub use crate::ellipse::Ellipse;
pub use crate::ellipse::create_ellipse;
