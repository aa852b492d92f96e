use vstd::prelude::*;
use crate::error::ShapeError;
use crate::exact::{Angle, Measure};
use crate::Polygon;

verus! {

/// A circle with a whole-number radius.
#[derive(Clone, Copy, Debug, PartialEq, Eq)]
pub struct Circle {
    radius: u16,
}

impl Circle {
    #[verifier::type_invariant]
    spec fn inv(self) -> bool {
        self.radius > 0
    }

    pub closed spec fn spec_radius(&self) -> u16 {
        self.radius
    }

    /// The circle of radius `r`, where it is not zero.
    pub fn new(r: u16) -> (c: Result<Circle, ShapeError>)
        ensures
            match c {
                Ok(circle) => r > 0 && circle.radius() == r,
                Err(e) => e == ShapeError::InvalidDimension && r == 0,
            },
    {
        if r == 0 {
            Err(ShapeError::InvalidDimension)
        } else {
            Ok(Circle { radius: r })
        }
    }

    #[verifier::when_used_as_spec(spec_radius)]
    pub fn radius(&self) -> (r: u16)
        ensures
            r == self.radius(),
            r > 0,
    {
        proof {
            use_type_invariant(self);
        }
        self.radius
    }
}

impl Polygon for Circle {
    open spec fn exact_area(&self) -> Option<Measure> {
        Some(Measure::PiTimes((self.radius() * self.radius()) as u64))
    }

    open spec fn exact_peri(&self) -> Option<Measure> {
        Some(Measure::PiTimes((2 * self.radius()) as u64))
    }

    open spec fn exact_angles(&self) -> Option<Seq<Angle>> {
        Some(Seq::empty())
    }

    /// π times the square of the radius.
    fn area(&self) -> (r: Option<Measure>) {
        assert(self.radius * self.radius <= 0xffff * 0xffff) by (nonlinear_arith);
        Some(Measure::PiTimes(self.radius as u64 * self.radius as u64))
    }

    /// The circumference: twice π times the radius.
    fn peri(&self) -> (r: Option<Measure>) {
        Some(Measure::PiTimes(2 * self.radius as u64))
    }

    /// A circle has no corners: the list is empty, and it is not missing.
    fn angles(&self) -> (r: Option<Vec<Angle>>) {
        let angles: Vec<Angle> = Vec::new();
        Some(angles)
    }
}

} // verus!
