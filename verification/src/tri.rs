use vstd::prelude::*;
use crate::error::ShapeError;
use crate::exact::{Angle, Measure, Ratio, Square};
use crate::Polygon;

verus! {

/// The strict triangle inequality: each side is shorter than the other two
/// together.
pub open spec fn is_triangle(a: int, b: int, c: int) -> bool {
    a < b + c && b < a + c && c < a + b
}

/// The strict triangle inequality where the third side is given by its
/// square: the third side is longer than the difference of the other two
/// and shorter than their sum.
pub open spec fn closes(a: int, b: int, square: Square) -> bool {
    square.den > 0 && (a - b) * (a - b) * square.den < square.num < (a + b) * (a + b) * square.den
}

/// Sixteen times the square of the area of the triangle with sides `a`,
/// `b`, `c`, by Heron's formula.
pub open spec fn heron(a: int, b: int, c: int) -> int {
    (a + b + c) * (b + c - a) * (a + c - b) * (a + b - c)
}

/// The cosine of the angle opposite `a` in the triangle with sides `a`, `b`,
/// `c`, by the law of cosines.
pub open spec fn cosine_opposite(a: int, b: int, c: int) -> Ratio {
    Ratio { num: (b * b + c * c - a * a) as i64, den: (2 * b * c) as i64 }
}

/// The fraction is proper and above minus one. Read as a cosine it stands
/// for an angle below π, or, where it is above one, for no angle at all.
pub open spec fn below_pi(cosine: Ratio) -> bool {
    cosine.den > 0 && -cosine.den < cosine.num
}

/// By the law of cosines, the square of the side opposite the angle with
/// the given cosine between the sides `a` and `b`: c² = a² + b² − 2ab·cos.
pub open spec fn third_square(a: int, b: int, cosine: Ratio) -> Square {
    Square {
        num: ((a * a + b * b) * cosine.den - 2 * a * b * cosine.num) as u128,
        den: cosine.den as u128,
    }
}

/// The three interior angles of the triangle with the sides `a`, `b` and
/// the root of `square`, by the law of cosines: the angle opposite each
/// side, in the order of the sides. With p = a²·den, q = b²·den and r = num,
/// the squares of the sides over one denominator, the cosines are
/// (q + r − p) / √(4qr), (r + p − q) / √(4rp) and (p + q − r) / √(4pq).
pub open spec fn angles_of(a: int, b: int, square: Square) -> Seq<Angle> {
    let (p, q, r) = (a * a * square.den, b * b * square.den, square.num as int);
    seq![
        Angle::ArcCos { num: (q + r - p) as i128, left: (4 * b * b * square.den) as u128, right: square.num },
        Angle::ArcCos { num: (r + p - q) as i128, left: (4 * a * a * square.den) as u128, right: square.num },
        Angle::ArcCos {
            num: (p + q - r) as i128,
            left: (2 * a * b * square.den) as u128,
            right: (2 * a * b * square.den) as u128,
        },
    ]
}

/// The area of the triangle with the sides `a`, `b` and the root of
/// `square`, by Heron's formula: the root of (c² − (a − b)²)·((a + b)² − c²)
/// divided by four, with the denominator of c² cleared.
pub open spec fn area_of(a: int, b: int, square: Square) -> Measure {
    Measure::RootOver {
        left: (square.num - (a - b) * (a - b) * square.den) as u128,
        right: ((a + b) * (a + b) * square.den - square.num) as u128,
        over: (4 * square.den) as u128,
    }
}

/// A triangle. Its first two sides are whole numbers; its third side is
/// the root of a fraction, so that two sides and any angle between them
/// have their triangle.
#[derive(Clone, Copy, Debug, PartialEq, Eq)]
pub struct Tri {
    side1: u16,
    side2: u16,
    square3: Square,
}

impl Tri {
    #[verifier::type_invariant]
    spec fn inv(self) -> bool {
        closes(self.side1 as int, self.side2 as int, self.square3) && self.square3.den
            <= i64::MAX
    }

    pub closed spec fn spec_side1(&self) -> u16 {
        self.side1
    }

    pub closed spec fn spec_side2(&self) -> u16 {
        self.side2
    }

    pub closed spec fn spec_side3_squared(&self) -> Square {
        self.square3
    }

    /// What holds of every triangle that exists: its sides satisfy the
    /// strict triangle inequality, and the denominator of the third side's
    /// square is below 2^63.
    pub open spec fn valid(&self) -> bool {
        closes(self.side1() as int, self.side2() as int, self.side3_squared())
            && self.side3_squared().den <= i64::MAX
    }

    /// Two triangles have the same three sides, however the square of the
    /// third is written.
    pub open spec fn same_sides(&self, other: Tri) -> bool {
        self.side1() == other.side1() && self.side2() == other.side2()
            && self.side3_squared().same_value(other.side3_squared())
    }

    /// The triangle with the three sides, where they satisfy the strict
    /// triangle inequality.
    pub fn new(s1: u16, s2: u16, s3: u16) -> (r: Result<Tri, ShapeError>)
        ensures
            match r {
                Ok(t) => is_triangle(s1 as int, s2 as int, s3 as int) && t.side1() == s1
                    && t.side2() == s2 && t.side3_squared() == (Square {
                    num: (s3 * s3) as u128,
                    den: 1,
                }) && t.valid(),
                Err(e) => e == ShapeError::InvalidGeometry && !is_triangle(
                    s1 as int,
                    s2 as int,
                    s3 as int,
                ),
            },
    {
        let sides: [u16; 3] = [s1, s2, s3];
        let mut biggest: usize = 0;
        for i in 1..3usize
            invariant
                biggest < 3,
                forall|j: int| 0 <= j < i ==> sides[j] <= sides[biggest as int],
        {
            if sides[biggest] < sides[i] {
                biggest = i;
            }
        }
        let rest: u32 = sides[(biggest + 1) % 3] as u32 + sides[(biggest + 2) % 3] as u32;
        if rest <= sides[biggest] as u32 {
            Err(ShapeError::InvalidGeometry)
        } else {
            proof {
                lemma_short_product(s3 as int, s3 as int);
                lemma_whole_side_closes(s1 as int, s2 as int, s3 as int);
            }
            let square = Square { num: s3 as u128 * s3 as u128, den: 1 };
            Ok(Tri { side1: s1, side2: s2, square3: square })
        }
    }

    /// The triangle with the sides `s1` and `s2` and, between them, the angle
    /// whose cosine is `cosine`. The third side follows from the law of
    /// cosines. A cosine of minus one or less is an angle of π or more; a
    /// cosine of one or more leaves no angle between the sides, and a side
    /// of zero leaves no triangle.
    pub fn sas(s1: u16, s2: u16, cosine: Ratio) -> (r: Result<Tri, ShapeError>)
        ensures
            match r {
                Ok(t) => cosine.proper() && cosine.within_unit() && s1 > 0 && s2 > 0
                    && t.side1() == s1 && t.side2() == s2 && t.side3_squared() == third_square(
                    s1 as int,
                    s2 as int,
                    cosine,
                ) && t.side3_squared().num == (s1 * s1 + s2 * s2) * cosine.den - 2 * s1 * s2
                    * cosine.num && t.valid(),
                Err(ShapeError::InvalidAngle) => !below_pi(cosine),
                Err(ShapeError::InvalidGeometry) => below_pi(cosine) && (s1 == 0 || s2 == 0
                    || !cosine.within_unit()),
                Err(ShapeError::InvalidDimension) => false,
            },
    {
        if cosine.den <= 0 || cosine.num <= -cosine.den {
            return Err(ShapeError::InvalidAngle);
        }
        if s1 == 0 || s2 == 0 || cosine.num >= cosine.den {
            return Err(ShapeError::InvalidGeometry);
        }
        let (a, b, num, den): (i128, i128, i128, i128) = (
            s1 as i128,
            s2 as i128,
            cosine.num as i128,
            cosine.den as i128,
        );
        proof {
            lemma_short_product(a as int, a as int);
            lemma_short_product(b as int, b as int);
            lemma_short_product(a as int, b as int);
            lemma_long_product(a * a + b * b, den as int);
            lemma_long_product(2 * (a * b), num as int);
            assert(2 * a * b * num == 2 * (a * b) * num) by (nonlinear_arith);
            lemma_angle_closes(a as int, b as int, num as int, den as int);
        }
        let square_times_den: i128 = (a * a + b * b) * den - 2 * (a * b) * num;
        let square = Square { num: square_times_den as u128, den: den as u128 };
        Ok(Tri { side1: s1, side2: s2, square3: square })
    }

    #[verifier::when_used_as_spec(spec_side1)]
    pub fn side1(&self) -> (s: u16)
        ensures
            s == self.side1(),
            s > 0,
            self.valid(),
    {
        proof {
            use_type_invariant(self);
            lemma_closing_sides_positive(
                self.side1 as int,
                self.side2 as int,
                self.square3.num as int,
                self.square3.den as int,
            );
        }
        self.side1
    }

    #[verifier::when_used_as_spec(spec_side2)]
    pub fn side2(&self) -> (s: u16)
        ensures
            s == self.side2(),
            s > 0,
            self.valid(),
    {
        proof {
            use_type_invariant(self);
            lemma_closing_sides_positive(
                self.side1 as int,
                self.side2 as int,
                self.square3.num as int,
                self.square3.den as int,
            );
        }
        self.side2
    }

    /// The square of the third side. The side itself is its root.
    #[verifier::when_used_as_spec(spec_side3_squared)]
    pub fn side3_squared(&self) -> (s: Square)
        ensures
            s == self.side3_squared(),
            s.num > 0,
            s.den > 0,
            self.valid(),
    {
        proof {
            use_type_invariant(self);
            lemma_closing_sides_positive(
                self.side1 as int,
                self.side2 as int,
                self.square3.num as int,
                self.square3.den as int,
            );
        }
        self.square3
    }
}

/// A product of two sixteen-bit numbers stays below 2^32.
pub proof fn lemma_short_product(x: int, y: int)
    by (nonlinear_arith)
    requires
        0 <= x <= 0xffff,
        0 <= y <= 0xffff,
    ensures
        0 <= x * y <= 0xffff * 0xffff,
{
}

/// A product of a number of up to 34 bits and one of up to 63 bits stays
/// below 2^97.
pub proof fn lemma_long_product(x: int, y: int)
    by (nonlinear_arith)
    requires
        0 <= x <= 0x3_ffff_ffff,
        -0x8000_0000_0000_0000 <= y <= 0x7fff_ffff_ffff_ffff,
    ensures
        -0x3_ffff_ffff * 0x8000_0000_0000_0000 <= x * y <= 0x3_ffff_ffff * 0x8000_0000_0000_0000,
        y >= 0 ==> x * y >= 0,
{
}

/// Three whole sides that satisfy the strict triangle inequality satisfy
/// it with the third given by its square.
pub proof fn lemma_whole_side_closes(a: int, b: int, c: int)
    by (nonlinear_arith)
    requires
        is_triangle(a, b, c),
    ensures
        (a - b) * (a - b) * 1 < c * c < (a + b) * (a + b) * 1,
{
}

/// Two positive sides and a cosine strictly between minus one and one give
/// a third side that satisfies the strict triangle inequality.
pub proof fn lemma_angle_closes(a: int, b: int, num: int, den: int)
    by (nonlinear_arith)
    requires
        a > 0,
        b > 0,
        den > 0,
        -den < num < den,
    ensures
        (a - b) * (a - b) * den < (a * a + b * b) * den - 2 * (a * b) * num < (a + b) * (a + b)
            * den,
        0 < (a * a + b * b) * den - 2 * (a * b) * num,
{
}

/// Sides that satisfy the strict triangle inequality are positive.
pub proof fn lemma_closing_sides_positive(a: int, b: int, n: int, d: int)
    by (nonlinear_arith)
    requires
        a >= 0,
        b >= 0,
        d > 0,
        (a - b) * (a - b) * d < n < (a + b) * (a + b) * d,
    ensures
        a > 0,
        b > 0,
        n > 0,
{
}

impl Polygon for Tri {
    open spec fn exact_area(&self) -> Option<Measure> {
        Some(area_of(self.side1() as int, self.side2() as int, self.side3_squared()))
    }

    open spec fn exact_peri(&self) -> Option<Measure> {
        Some(
            Measure::WholePlusRoot {
                whole: (self.side1() + self.side2()) as u64,
                square: self.side3_squared(),
            },
        )
    }

    open spec fn exact_angles(&self) -> Option<Seq<Angle>> {
        Some(angles_of(self.side1() as int, self.side2() as int, self.side3_squared()))
    }

    /// Heron's formula, short of the square root.
    fn area(&self) -> (r: Option<Measure>) {
        proof {
            use_type_invariant(self);
        }
        let (a, b): (u128, u128) = (self.side1 as u128, self.side2 as u128);
        let (n, d): (u128, u128) = (self.square3.num, self.square3.den);
        let gap: u128 = if a < b {
            b - a
        } else {
            a - b
        };
        proof {
            lemma_short_product(gap as int, gap as int);
            assert((a + b) * (a + b) <= 0x3_ffff_ffff) by (nonlinear_arith)
                requires
                    a + b <= 0x1_fffe,
            ;
            lemma_long_product((a + b) * (a + b), d as int);
            assert(gap * gap == (a - b) * (a - b)) by (nonlinear_arith)
                requires
                    gap == a - b || gap == b - a,
            ;
        }
        Some(
            Measure::RootOver {
                left: n - gap * gap * d,
                right: (a + b) * (a + b) * d - n,
                over: 4 * d,
            },
        )
    }

    /// The sum of the sides.
    fn peri(&self) -> (r: Option<Measure>) {
        Some(
            Measure::WholePlusRoot {
                whole: self.side1 as u64 + self.side2 as u64,
                square: self.square3,
            },
        )
    }

    /// The angle opposite each side, in the order of the sides.
    fn angles(&self) -> (r: Option<Vec<Angle>>) {
        proof {
            use_type_invariant(self);
        }
        let (a, b): (i128, i128) = (self.side1 as i128, self.side2 as i128);
        let d: i128 = self.square3.den as i128;
        proof {
            lemma_short_product(a as int, a as int);
            lemma_short_product(b as int, b as int);
            lemma_short_product(a as int, b as int);
            lemma_long_product(a * a, d as int);
            lemma_long_product(b * b, d as int);
            lemma_long_product(4 * (a * a), d as int);
            lemma_long_product(4 * (b * b), d as int);
            lemma_long_product(2 * (a * b), d as int);
            assert((a + b) * (a + b) <= 0x3_ffff_ffff) by (nonlinear_arith)
                requires
                    0 <= a <= 0xffff,
                    0 <= b <= 0xffff,
            ;
            lemma_long_product((a + b) * (a + b), d as int);
            assert(4 * a * a * d == 4 * (a * a) * d && 4 * b * b * d == 4 * (b * b) * d && 2 * a
                * b * d == 2 * (a * b) * d) by (nonlinear_arith);
        }
        let (p, q, r): (i128, i128, i128) = (a * a * d, b * b * d, self.square3.num as i128);
        let between: u128 = (2 * (a * b) * d) as u128;
        let first = Angle::ArcCos {
            num: q + r - p,
            left: (4 * (b * b) * d) as u128,
            right: self.square3.num,
        };
        let second = Angle::ArcCos {
            num: r + p - q,
            left: (4 * (a * a) * d) as u128,
            right: self.square3.num,
        };
        let third = Angle::ArcCos { num: p + q - r, left: between, right: between };
        let angles: Vec<Angle> = vec![first, second, third];
        Some(angles)
    }
}

} // verus!
