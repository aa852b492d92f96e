use vstd::prelude::*;
use crate::error::ShapeError;
use crate::exact::{Angle, Measure, Ratio, Square};
use crate::tri::Tri;
use crate::Polygon;

verus! {

/// The corner of a rectangle: ninety degrees.
pub open spec fn right_angle() -> Angle {
    Angle::Degrees(Ratio { num: 90, den: 1 })
}

/// A rectangle with whole-number sides.
#[derive(Clone, Copy, Debug, PartialEq, Eq)]
pub struct Rect {
    width: u16,
    height: u16,
}

impl Rect {
    #[verifier::type_invariant]
    spec fn inv(self) -> bool {
        self.width > 0 && self.height > 0
    }

    pub closed spec fn spec_width(&self) -> u16 {
        self.width
    }

    pub closed spec fn spec_height(&self) -> u16 {
        self.height
    }

    /// The rectangle of width `w` and height `h`, where neither is zero.
    pub fn new(w: u16, h: u16) -> (r: Result<Rect, ShapeError>)
        ensures
            match r {
                Ok(rect) => w > 0 && h > 0 && rect.width() == w && rect.height() == h,
                Err(e) => e == ShapeError::InvalidDimension && (w == 0 || h == 0),
            },
    {
        if w == 0 || h == 0 {
            Err(ShapeError::InvalidDimension)
        } else {
            Ok(Rect { width: w, height: h })
        }
    }

    /// The square of side `w`, where it is not zero.
    pub fn square(w: u16) -> (r: Result<Rect, ShapeError>)
        ensures
            match r {
                Ok(rect) => w > 0 && rect.width() == w && rect.height() == w,
                Err(e) => e == ShapeError::InvalidDimension && w == 0,
            },
    {
        if w == 0 {
            Err(ShapeError::InvalidDimension)
        } else {
            Ok(Rect { width: w, height: w })
        }
    }

    /// One of the two triangles that a cut from corner to opposite corner
    /// leaves: the two sides with a right angle between them, and the
    /// diagonal for its third side. A rectangle always splits.
    pub fn split(&self) -> (r: Result<Tri, ShapeError>)
        ensures
            r matches Ok(t) && t.side1() == self.width() && t.side2() == self.height()
                && t.side3_squared() == (Square {
                num: (self.width() * self.width() + self.height() * self.height()) as u128,
                den: 1,
            }) && t.valid(),
    {
        proof {
            use_type_invariant(self);
        }
        Tri::sas(self.width, self.height, Ratio { num: 0, den: 1 })
    }

    #[verifier::when_used_as_spec(spec_width)]
    pub fn width(&self) -> (w: u16)
        ensures
            w == self.width(),
            w > 0,
    {
        proof {
            use_type_invariant(self);
        }
        self.width
    }

    #[verifier::when_used_as_spec(spec_height)]
    pub fn height(&self) -> (h: u16)
        ensures
            h == self.height(),
            h > 0,
    {
        proof {
            use_type_invariant(self);
        }
        self.height
    }
}

impl Polygon for Rect {
    open spec fn exact_area(&self) -> Option<Measure> {
        Some(Measure::Whole((self.width() * self.height()) as u64))
    }

    open spec fn exact_peri(&self) -> Option<Measure> {
        Some(Measure::Whole((2 * (self.width() + self.height())) as u64))
    }

    open spec fn exact_angles(&self) -> Option<Seq<Angle>> {
        Some(Seq::new(4, |i: int| right_angle()))
    }

    /// Width times height.
    fn area(&self) -> (r: Option<Measure>) {
        assert(self.width * self.height <= 0xffff * 0xffff) by (nonlinear_arith);
        Some(Measure::Whole(self.width as u64 * self.height as u64))
    }

    /// Twice the sum of width and height.
    fn peri(&self) -> (r: Option<Measure>) {
        Some(Measure::Whole(2 * (self.width as u64 + self.height as u64)))
    }

    /// Four right angles.
    fn angles(&self) -> (r: Option<Vec<Angle>>) {
        let corner = Angle::Degrees(Ratio { num: 90, den: 1 });
        let angles: Vec<Angle> = vec![corner, corner, corner, corner];
        Some(angles)
    }
}

} // verus!
