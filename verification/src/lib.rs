//! Exact geometry of rectangles, circles, triangles and regular polygons
//! whose measurements are whole numbers of one unit.
//!
//! A shape is built by a function that checks its measurements and fails
//! with a [`ShapeError`] where they describe no shape; a shape that exists
//! is sound and never changes. Every shape answers the three questions of
//! [`Polygon`]: its area, its perimeter and its interior angles.
//!
//! Every result is exact. A length or area that is no whole number comes
//! as a [`Measure`] in closed form, an angle as an [`Angle`]; turning a
//! closed form into a rounded number is left to the caller.
//!
//! Measurements are sixteen bits wide. That is the widest for which every
//! exact intermediate result fits in 128 bits, up to the square of a sum of
//! two sides times the denominator of a cosine.
//!
//! The third side of a triangle need not be a whole number: a triangle
//! built from two sides and the angle between them, or cut from a
//! rectangle, keeps the square of its third side as a fraction.

use vstd::prelude::*;

pub mod circle;
pub mod error;
pub mod exact;
pub mod laws;
pub mod missing;
pub mod rect;
pub mod reg;
pub mod tri;

pub use crate::circle::Circle;
pub use crate::error::ShapeError;
pub use crate::exact::{Angle, Measure, Ratio, Square};
pub use crate::missing::all_or_missing;
pub use crate::rect::Rect;
pub use crate::reg::Reg;
pub use crate::tri::Tri;

verus! {

/// What every shape answers. `None` stands for a result that is missing:
/// the shape is sound, but the quantity is not defined for it.
pub trait Polygon {
    /// The area, in square units.
    spec fn exact_area(&self) -> Option<Measure>;

    /// The length of the boundary.
    spec fn exact_peri(&self) -> Option<Measure>;

    /// The interior angles, one for each corner, in order.
    spec fn exact_angles(&self) -> Option<Seq<Angle>>;

    /// The area, or `None` where it is missing.
    fn area(&self) -> (r: Option<Measure>)
        ensures
            r == self.exact_area(),
    ;

    /// The perimeter, or `None` where it is missing.
    fn peri(&self) -> (r: Option<Measure>)
        ensures
            r == self.exact_peri(),
    ;

    /// The interior angles, or `None` where they are missing. A shape
    /// without corners has an empty list, which is not missing.
    fn angles(&self) -> (r: Option<Vec<Angle>>)
        ensures
            match r {
                Some(v) => self.exact_angles() == Some(v@),
                None => self.exact_angles().is_none(),
            },
    ;
}

/// Any one of the four shapes, for callers that keep shapes of several
/// kinds in one place. It answers as the shape inside it does.
#[derive(Clone, Copy, Debug, PartialEq, Eq)]
pub enum Poly {
    Rect(Rect),
    Circle(Circle),
    Tri(Tri),
    Reg(Reg),
}

impl Polygon for Poly {
    open spec fn exact_area(&self) -> Option<Measure> {
        match self {
            Poly::Rect(rect) => rect.exact_area(),
            Poly::Circle(circle) => circle.exact_area(),
            Poly::Tri(tri) => tri.exact_area(),
            Poly::Reg(reg) => reg.exact_area(),
        }
    }

    open spec fn exact_peri(&self) -> Option<Measure> {
        match self {
            Poly::Rect(rect) => rect.exact_peri(),
            Poly::Circle(circle) => circle.exact_peri(),
            Poly::Tri(tri) => tri.exact_peri(),
            Poly::Reg(reg) => reg.exact_peri(),
        }
    }

    open spec fn exact_angles(&self) -> Option<Seq<Angle>> {
        match self {
            Poly::Rect(rect) => rect.exact_angles(),
            Poly::Circle(circle) => circle.exact_angles(),
            Poly::Tri(tri) => tri.exact_angles(),
            Poly::Reg(reg) => reg.exact_angles(),
        }
    }

    fn area(&self) -> (r: Option<Measure>) {
        match self {
            Poly::Rect(rect) => rect.area(),
            Poly::Circle(circle) => circle.area(),
            Poly::Tri(tri) => tri.area(),
            Poly::Reg(reg) => reg.area(),
        }
    }

    fn peri(&self) -> (r: Option<Measure>) {
        match self {
            Poly::Rect(rect) => rect.peri(),
            Poly::Circle(circle) => circle.peri(),
            Poly::Tri(tri) => tri.peri(),
            Poly::Reg(reg) => reg.peri(),
        }
    }

    fn angles(&self) -> (r: Option<Vec<Angle>>) {
        match self {
            Poly::Rect(rect) => rect.angles(),
            Poly::Circle(circle) => circle.angles(),
            Poly::Tri(tri) => tri.angles(),
            Poly::Reg(reg) => reg.angles(),
        }
    }
}

} // verus!
