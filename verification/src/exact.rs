use vstd::prelude::*;

verus! {

/// The fraction `num / den`.
#[derive(Clone, Copy, Debug, PartialEq, Eq, Structural)]
pub struct Ratio {
    pub num: i64,
    pub den: i64,
}

impl Ratio {
    /// A fraction is proper when its denominator is positive.
    pub open spec fn proper(self) -> bool {
        self.den > 0
    }

    /// The fraction lies strictly between minus one and one.
    pub open spec fn within_unit(self) -> bool {
        -self.den < self.num < self.den
    }

    /// Two proper fractions are one number, however each is written.
    pub open spec fn same_value(self, other: Ratio) -> bool {
        self.proper() && other.proper() && self.num * other.den == other.num * self.den
    }
}

/// The square of a length, as the fraction `num / den`. The length itself
/// is the root of the fraction, and need not be a fraction.
#[derive(Clone, Copy, Debug, PartialEq, Eq, Structural)]
pub struct Square {
    pub num: u128,
    pub den: u128,
}

impl Square {
    /// Two squares are one number, however each is written.
    pub open spec fn same_value(self, other: Square) -> bool {
        self.den > 0 && other.den > 0 && self.num * other.den == other.num * self.den
    }

    /// The fraction is the square of the whole number `k`.
    pub open spec fn is_square_of(self, k: int) -> bool {
        self.den > 0 && k >= 0 && k * k * self.den == self.num
    }
}

/// An exact length or area, in closed form.
///
/// Nothing here is rounded: a value that is no whole number names the
/// whole numbers it is built from and the steps that remain.
#[derive(Clone, Copy, Debug, PartialEq, Eq, Structural)]
pub enum Measure {
    /// The whole number itself.
    Whole(u64),
    /// The whole number times π.
    PiTimes(u64),
    /// `whole` plus the root of `square`.
    WholePlusRoot { whole: u64, square: Square },
    /// The root of `left` times `right`, divided by `over`.
    RootOver { left: u128, right: u128, over: u128 },
    /// `num` divided by four times the tangent of π / `sides`.
    OverFourTan { num: u64, sides: u16 },
}

impl Measure {
    /// The closed form has the whole number `k` for its value. For the form
    /// with a tangent this is said of four sides only, where the tangent of
    /// π / 4 is one.
    pub open spec fn is_whole(self, k: int) -> bool {
        match self {
            Measure::Whole(n) => n == k,
            Measure::PiTimes(n) => n == 0 && k == 0,
            Measure::WholePlusRoot { whole, square } => square.is_square_of(k - whole),
            Measure::RootOver { left, right, over } => over > 0 && k >= 0 && (k * over) * (k
                * over) == left * right,
            Measure::OverFourTan { num, sides } => sides == 4 && num == 4 * k,
        }
    }
}

/// An exact interior angle, in closed form.
///
/// Rectangles and regular polygons give their angles as fractions of
/// degrees, triangles as arc cosines. Each form names its unit, so the two
/// are never mixed up.
#[derive(Clone, Copy, Debug, PartialEq, Eq, Structural)]
pub enum Angle {
    /// The fraction, read as a number of degrees.
    Degrees(Ratio),
    /// The angle between 0 and π, in radians, whose cosine is `num` divided
    /// by the root of `left` times `right`.
    ArcCos { num: i128, left: u128, right: u128 },
}

impl Angle {
    /// Two angles in one unit are one angle, however each is written.
    pub open spec fn same_value(self, other: Angle) -> bool {
        match (self, other) {
            (Angle::Degrees(x), Angle::Degrees(y)) => x.same_value(y),
            (
                Angle::ArcCos { num: n1, left: l1, right: r1 },
                Angle::ArcCos { num: n2, left: l2, right: r2 },
            ) => l1 * r1 > 0 && l2 * r2 > 0 && n1 * n2 >= 0 && n1 * n1 * (l2 * r2) == n2 * n2 * (l1
                * r1),
            _ => false,
        }
    }

    /// The angle is a right angle.
    pub open spec fn is_right(self) -> bool {
        match self {
            Angle::Degrees(x) => x.same_value(Ratio { num: 90, den: 1 }),
            Angle::ArcCos { num, left, right } => num == 0 && left * right > 0,
        }
    }
}

} // verus!
