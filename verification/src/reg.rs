use vstd::prelude::*;
use crate::error::ShapeError;
use crate::exact::{Angle, Measure, Ratio};
use crate::Polygon;

verus! {

/// The interior angle of a regular polygon with `sides` sides, in degrees:
/// 180 × (sides − 2) / sides.
pub open spec fn interior_angle(sides: int) -> Angle {
    Angle::Degrees(Ratio { num: (180 * (sides - 2)) as i64, den: sides as i64 })
}

/// A regular polygon: a whole number of sides, three or more, each of the
/// same whole-number length.
#[derive(Clone, Copy, Debug, PartialEq, Eq)]
pub struct Reg {
    length: u16,
    sides: u16,
}

impl Reg {
    #[verifier::type_invariant]
    spec fn inv(self) -> bool {
        self.length > 0 && self.sides >= 3
    }

    pub closed spec fn spec_length(&self) -> u16 {
        self.length
    }

    pub closed spec fn spec_sides(&self) -> u16 {
        self.sides
    }

    /// The regular polygon with `s` sides of length `l`: the length must not
    /// be zero, and fewer than three sides enclose nothing.
    pub fn new(l: u16, s: u16) -> (r: Result<Reg, ShapeError>)
        ensures
            match r {
                Ok(reg) => l > 0 && s >= 3 && reg.length() == l && reg.sides() == s,
                Err(ShapeError::InvalidDimension) => l == 0,
                Err(ShapeError::InvalidGeometry) => l > 0 && s < 3,
                Err(ShapeError::InvalidAngle) => false,
            },
    {
        if l == 0 {
            Err(ShapeError::InvalidDimension)
        } else if s < 3 {
            Err(ShapeError::InvalidGeometry)
        } else {
            Ok(Reg { length: l, sides: s })
        }
    }

    /// The equilateral triangle of side `l`.
    pub fn tri(l: u16) -> (r: Result<Reg, ShapeError>)
        ensures
            match r {
                Ok(reg) => l > 0 && reg.length() == l && reg.sides() == 3,
                Err(e) => e == ShapeError::InvalidDimension && l == 0,
            },
    {
        Reg::new(l, 3)
    }

    /// The square of side `l`.
    pub fn quad(l: u16) -> (r: Result<Reg, ShapeError>)
        ensures
            match r {
                Ok(reg) => l > 0 && reg.length() == l && reg.sides() == 4,
                Err(e) => e == ShapeError::InvalidDimension && l == 0,
            },
    {
        Reg::new(l, 4)
    }

    /// The regular pentagon of side `l`.
    pub fn pent(l: u16) -> (r: Result<Reg, ShapeError>)
        ensures
            match r {
                Ok(reg) => l > 0 && reg.length() == l && reg.sides() == 5,
                Err(e) => e == ShapeError::InvalidDimension && l == 0,
            },
    {
        Reg::new(l, 5)
    }

    /// The regular hexagon of side `l`.
    pub fn hex(l: u16) -> (r: Result<Reg, ShapeError>)
        ensures
            match r {
                Ok(reg) => l > 0 && reg.length() == l && reg.sides() == 6,
                Err(e) => e == ShapeError::InvalidDimension && l == 0,
            },
    {
        Reg::new(l, 6)
    }

    /// The regular heptagon of side `l`.
    pub fn sept(l: u16) -> (r: Result<Reg, ShapeError>)
        ensures
            match r {
                Ok(reg) => l > 0 && reg.length() == l && reg.sides() == 7,
                Err(e) => e == ShapeError::InvalidDimension && l == 0,
            },
    {
        Reg::new(l, 7)
    }

    /// The regular octagon of side `l`.
    pub fn oct(l: u16) -> (r: Result<Reg, ShapeError>)
        ensures
            match r {
                Ok(reg) => l > 0 && reg.length() == l && reg.sides() == 8,
                Err(e) => e == ShapeError::InvalidDimension && l == 0,
            },
    {
        Reg::new(l, 8)
    }

    /// The regular nonagon of side `l`.
    pub fn non(l: u16) -> (r: Result<Reg, ShapeError>)
        ensures
            match r {
                Ok(reg) => l > 0 && reg.length() == l && reg.sides() == 9,
                Err(e) => e == ShapeError::InvalidDimension && l == 0,
            },
    {
        Reg::new(l, 9)
    }

    #[verifier::when_used_as_spec(spec_length)]
    pub fn length(&self) -> (l: u16)
        ensures
            l == self.length(),
            l > 0,
    {
        proof {
            use_type_invariant(self);
        }
        self.length
    }

    #[verifier::when_used_as_spec(spec_sides)]
    pub fn sides(&self) -> (s: u16)
        ensures
            s == self.sides(),
            s >= 3,
    {
        proof {
            use_type_invariant(self);
        }
        self.sides
    }
}

impl Polygon for Reg {
    open spec fn exact_area(&self) -> Option<Measure> {
        Some(
            Measure::OverFourTan {
                num: (self.length() * self.sides() * self.length()) as u64,
                sides: self.sides(),
            },
        )
    }

    open spec fn exact_peri(&self) -> Option<Measure> {
        Some(Measure::Whole((self.length() * self.sides()) as u64))
    }

    open spec fn exact_angles(&self) -> Option<Seq<Angle>> {
        Some(Seq::new(self.sides() as nat, |i: int| interior_angle(self.sides() as int)))
    }

    /// Half of perimeter times apothem. The apothem is the side over twice
    /// the tangent of π / sides, so the area is perimeter times side over
    /// four times that tangent.
    fn area(&self) -> (r: Option<Measure>) {
        match self.peri() {
            Some(Measure::Whole(perimeter)) => {
                assert(self.length * self.sides <= 0xffff * 0xffff && self.length * self.sides
                    * self.length <= 0xffff * 0xffff * 0xffff) by (nonlinear_arith);
                Some(Measure::OverFourTan { num: perimeter * self.length as u64, sides: self.sides })
            },
            _ => None,
        }
    }

    /// The side times the number of sides.
    fn peri(&self) -> (r: Option<Measure>) {
        assert(self.length * self.sides <= 0xffff * 0xffff) by (nonlinear_arith);
        Some(Measure::Whole(self.length as u64 * self.sides as u64))
    }

    /// As many equal angles as the polygon has sides.
    fn angles(&self) -> (r: Option<Vec<Angle>>) {
        proof {
            use_type_invariant(self);
        }
        let total: i64 = 180 * (self.sides as i64 - 2);
        let angle = Angle::Degrees(Ratio { num: total, den: self.sides as i64 });
        let mut angles: Vec<Angle> = Vec::new();
        let mut i: u16 = 0;
        while i < self.sides
            invariant
                i <= self.sides,
                angles@.len() == i,
                angle == interior_angle(self.sides as int),
                forall|j: int| 0 <= j < i ==> angles@[j] == angle,
            decreases self.sides - i,
        {
            angles.push(angle);
            i += 1;
        }
        Some(angles)
    }
}

} // verus!
