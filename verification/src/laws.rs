//! What holds of the shapes whatever their measurements.

use vstd::prelude::*;
use crate::circle::Circle;
use crate::exact::{Angle, Measure, Square};
use crate::rect::Rect;
use crate::reg::{interior_angle, Reg};
use crate::tri::{
    below_pi, cosine_opposite, heron, is_triangle, lemma_long_product, lemma_short_product,
    third_square, Tri,
};
use crate::{Poly, Polygon};

verus! {

/// In exact arithmetic nothing is ever missing: every shape has an area, a
/// perimeter and a list of angles.
pub proof fn law_never_missing(shape: Poly)
    ensures
        shape.exact_area() is Some,
        shape.exact_peri() is Some,
        shape.exact_angles() is Some,
{
}

/// The closed forms of a rectangle hold the numbers of its formulas as
/// they stand, none of them cut to fit: width times height, and twice
/// their sum.
pub proof fn law_rect_uncut(rect: Rect)
    ensures
        rect.exact_area() matches Some(Measure::Whole(n)) && n == rect.width() * rect.height(),
        rect.exact_peri() matches Some(Measure::Whole(n)) && n == 2 * (rect.width()
            + rect.height()),
{
    lemma_short_product(rect.width() as int, rect.height() as int);
}

/// The closed forms of a circle hold the numbers of its formulas as they
/// stand: the square of the radius, and twice the radius.
pub proof fn law_circle_uncut(circle: Circle)
    ensures
        circle.exact_area() matches Some(Measure::PiTimes(n)) && n == circle.radius()
            * circle.radius(),
        circle.exact_peri() matches Some(Measure::PiTimes(n)) && n == 2 * circle.radius(),
{
    lemma_short_product(circle.radius() as int, circle.radius() as int);
}

/// The closed forms of a regular polygon hold the numbers of its formulas
/// as they stand: perimeter times side, side times sides, and 180 times two
/// sides fewer over the sides.
pub proof fn law_reg_uncut(reg: Reg)
    ensures
        reg.exact_area() matches Some(Measure::OverFourTan { num, sides }) && sides == reg.sides()
            && num == reg.length() * reg.sides() * reg.length(),
        reg.exact_peri() matches Some(Measure::Whole(n)) && n == reg.length() * reg.sides(),
        interior_angle(reg.sides() as int) matches Angle::Degrees(ratio) && ratio.num == 180 * (
        reg.sides() - 2) && ratio.den == reg.sides(),
{
    let (l, n) = (reg.length() as int, reg.sides() as int);
    assert(0 <= l * n <= 0xffff * 0xffff && 0 <= l * n * l <= 0xffff * 0xffff * 0xffff)
        by (nonlinear_arith)
        requires
            0 <= l <= 0xffff,
            0 <= n <= 0xffff,
    ;
}

/// The squares of the three sides of a triangle over one denominator:
/// a²·den, b²·den and the numerator of the third.
pub open spec fn scaled_squares(t: Tri) -> (int, int, int) {
    (
        t.side1() * t.side1() * t.side3_squared().den,
        t.side2() * t.side2() * t.side3_squared().den,
        t.side3_squared().num as int,
    )
}

/// The closed forms of a triangle hold the numbers of its formulas as they
/// stand, none of them cut to fit. With p, q, r the squares of the sides
/// over one denominator, the cosines are (q + r − p) / √(4qr),
/// (r + p − q) / √(4rp) and (p + q − r) / √(4pq). The two factors of Heron's
/// product are positive, and their product is 4pq − (p + q − r)².
pub proof fn law_tri_uncut(t: Tri)
    requires
        t.valid(),
    ensures
        ({
            let (a, b, n, d) = (
                t.side1() as int,
                t.side2() as int,
                t.side3_squared().num as int,
                t.side3_squared().den as int,
            );
            let (p, q, r) = scaled_squares(t);
            let angles = t.exact_angles().unwrap();
            &&& a > 0 && b > 0 && n > 0 && d > 0
            &&& p > 0 && q > 0 && r > 0
            &&& t.exact_peri() matches Some(Measure::WholePlusRoot { whole, square })
            &&& whole == a + b && square == t.side3_squared()
            &&& t.exact_area() matches Some(Measure::RootOver { left, right, over })
            &&& left == n - (a - b) * (a - b) * d
            &&& right == (a + b) * (a + b) * d - n
            &&& over == 4 * d
            &&& left > 0 && right > 0 && left * right > 0
            &&& left * right == 4 * (p * q) - (p + q - r) * (p + q - r)
            &&& angles.len() == 3
            &&& angles[0] matches Angle::ArcCos { num: x, left: l0, right: r0 }
            &&& angles[1] matches Angle::ArcCos { num: y, left: l1, right: r1 }
            &&& angles[2] matches Angle::ArcCos { num: z, left: l2, right: r2 }
            &&& x == q + r - p && y == r + p - q && z == p + q - r
            &&& l0 * r0 == 4 * (q * r) && l1 * r1 == 4 * (r * p) && l2 * r2 == 4 * (p * q)
        }),
{
    let (a, b, n, d) = (
        t.side1() as int,
        t.side2() as int,
        t.side3_squared().num as int,
        t.side3_squared().den as int,
    );
    crate::tri::lemma_closing_sides_positive(a, b, n, d);
    lemma_short_product(a, a);
    lemma_short_product(b, b);
    lemma_short_product(a, b);
    lemma_long_product(4 * (a * a), d);
    lemma_long_product(4 * (b * b), d);
    assert(0 <= (a - b) * (a - b) <= 0x3_ffff_ffff && (a + b) * (a + b) <= 0x3_ffff_ffff)
        by (nonlinear_arith)
        requires
            0 <= a <= 0xffff,
            0 <= b <= 0xffff,
    ;
    lemma_long_product((a + b) * (a + b), d);
    assert(4 * a * a * d == 4 * (a * a) * d && 4 * b * b * d == 4 * (b * b) * d && 2 * a * b * d
        == 2 * (a * b) * d) by (nonlinear_arith);
    let (p, q, r) = (a * a * d, b * b * d, n);
    assert(p > 0 && q > 0) by (nonlinear_arith)
        requires
            a > 0,
            b > 0,
            d > 0,
            p == a * a * d,
            q == b * b * d,
    ;
    let (left, right) = (n - (a - b) * (a - b) * d, (a + b) * (a + b) * d - n);
    let m = 2 * (a * b) * d;
    assert(left == m - (p + q - r) && right == m + (p + q - r)) by (nonlinear_arith)
        requires
            left == n - (a - b) * (a - b) * d,
            right == (a + b) * (a + b) * d - n,
            m == 2 * (a * b) * d,
            p == a * a * d,
            q == b * b * d,
            r == n,
    ;
    assert(m * m == 4 * (p * q)) by (nonlinear_arith)
        requires
            m == 2 * (a * b) * d,
            p == a * a * d,
            q == b * b * d,
    ;
    assert(left * right == m * m - (p + q - r) * (p + q - r)) by (nonlinear_arith)
        requires
            left == m - (p + q - r),
            right == m + (p + q - r),
    ;
    assert(left * right > 0) by (nonlinear_arith)
        requires
            left > 0,
            right > 0,
    ;
    assert((4 * (b * b) * d) * n == 4 * (q * r) && (4 * (a * a) * d) * n == 4 * (r * p))
        by (nonlinear_arith)
        requires
            p == a * a * d,
            q == b * b * d,
            r == n,
    ;
}

/// What holds of any three numbers p, q, r and x = q + r − p, y = r + p − q,
/// z = p + q − r.
proof fn lemma_relation(p: int, q: int, r: int)
    ensures
        ({
            let (x, y, z) = (q + r - p, r + p - q, p + q - r);
            &&& p * (x * x) + q * (y * y) + r * (z * z) + x * y * z == 4 * (p * q * r)
            &&& x * y + 2 * (r * z) == 4 * (p * q) - z * z
            &&& y * z + 2 * (p * x) == 4 * (p * q) - z * z
            &&& z * x + 2 * (q * y) == 4 * (p * q) - z * z
            &&& 4 * (q * r) - x * x == 4 * (p * q) - z * z
            &&& 4 * (r * p) - y * y == 4 * (p * q) - z * z
        }),
{
    let (xn, yn, zn) = (q + r - p, r + p - q, p + q - r);
    let (xx, yy, zz) = (xn * xn, yn * yn, zn * zn);
    let (xy, xz, yz) = (xn * yn, xn * zn, yn * zn);
    let t = xn * yn * zn;
    let w = yn + zn;
    assert((xn + zn) * (xn + yn) == xx + xy + xz + yz) by (nonlinear_arith)
        requires
            xx == xn * xn,
            xy == xn * yn,
            xz == xn * zn,
            yz == yn * zn,
    ;
    assert(w * (xx + xy + xz + yz) == w * xx + w * xy + w * xz + w * yz) by (nonlinear_arith);
    assert(w * xy == xn * yy + t && w * xz == t + xn * zz && w * yz == zn * yy + yn * zz)
        by (nonlinear_arith)
        requires
            w == yn + zn,
            yy == yn * yn,
            zz == zn * zn,
            xy == xn * yn,
            xz == xn * zn,
            yz == yn * zn,
            t == xn * yn * zn,
    ;
    assert((xn + zn) * yy == xn * yy + zn * yy && (xn + yn) * zz == xn * zz + yn * zz)
        by (nonlinear_arith);
    assert(2 * (p * xx) == w * xx && 2 * (q * yy) == (xn + zn) * yy && 2 * (r * zz) == (xn + yn)
        * zz) by (nonlinear_arith)
        requires
            w == 2 * p,
            xn + zn == 2 * q,
            xn + yn == 2 * r,
    ;
    assert(8 * (p * q * r) == w * ((xn + zn) * (xn + yn))) by (nonlinear_arith)
        requires
            w == 2 * p,
            xn + zn == 2 * q,
            xn + yn == 2 * r,
    ;
    assert(xn * yn + 2 * (r * zn) == 4 * (p * q) - zn * zn && yn * zn + 2 * (p * xn) == 4 * (p
        * q) - zn * zn && zn * xn + 2 * (q * yn) == 4 * (p * q) - zn * zn && 4 * (q * r) - xn * xn
        == 4 * (p * q) - zn * zn && 4 * (r * p) - yn * yn == 4 * (p * q) - zn * zn)
        by (nonlinear_arith)
        requires
            xn == q + r - p,
            yn == r + p - q,
            zn == p + q - r,
    ;
}

/// Every angle of a triangle lies strictly between 0 and π: the square of
/// the numerator of each cosine is below the number under the root of its
/// denominator, which is positive.
pub proof fn law_cosine_within_unit(t: Tri)
    requires
        t.valid(),
    ensures
        forall|i: int|
            0 <= i < 3 ==> (#[trigger] t.exact_angles().unwrap()[i] matches Angle::ArcCos {
                num,
                left,
                right,
            } && left * right > 0 && num * num < left * right),
{
    law_tri_uncut(t);
    let (p, q, r) = scaled_squares(t);
    lemma_relation(p, q, r);
    let (x, y, z) = (q + r - p, r + p - q, p + q - r);
    assert(x * x >= 0 && y * y >= 0 && z * z >= 0) by (nonlinear_arith);
    let angles = t.exact_angles().unwrap();
    assert(angles[0] matches Angle::ArcCos { num, left, right } && left * right > 0 && num * num
        < left * right);
    assert(angles[1] matches Angle::ArcCos { num, left, right } && left * right > 0 && num * num
        < left * right);
    assert(angles[2] matches Angle::ArcCos { num, left, right } && left * right > 0 && num * num
        < left * right);
}

/// What ties the three angles of a triangle together, said of their
/// cosines. With p, q, r the squares of the sides over one denominator, the
/// cosines are x / √(4qr), y / √(4rp) and z / √(4pq). The sum of their
/// squares and of twice their product is one: here
/// p·x² + q·y² + r·z² + x·y·z = 4pqr, which is that sum times 4pqr. Each
/// product of two of them added to the third is positive: here
/// x·y + 2r·z > 0, and so in turn.
pub proof fn law_cosine_relation(t: Tri)
    requires
        t.valid(),
    ensures
        ({
            let (p, q, r) = scaled_squares(t);
            let angles = t.exact_angles().unwrap();
            &&& angles[0] matches Angle::ArcCos { num: x, left: l0, right: r0 }
            &&& angles[1] matches Angle::ArcCos { num: y, left: l1, right: r1 }
            &&& angles[2] matches Angle::ArcCos { num: z, left: l2, right: r2 }
            &&& l0 * r0 == 4 * (q * r) && l1 * r1 == 4 * (r * p) && l2 * r2 == 4 * (p * q)
            &&& p * (x * x) + q * (y * y) + r * (z * z) + x * y * z == 4 * (p * q * r)
            &&& x * y + 2 * (r * z) > 0
            &&& y * z + 2 * (p * x) > 0
            &&& z * x + 2 * (q * y) > 0
        }),
{
    law_tri_uncut(t);
    let (p, q, r) = scaled_squares(t);
    lemma_relation(p, q, r);
}

/// The sides of a triangle are positive.
pub proof fn law_triangle_sides_positive(a: int, b: int, c: int)
    requires
        is_triangle(a, b, c),
    ensures
        a > 0,
        b > 0,
        c > 0,
{
}

/// The number under the square root of Heron's formula is positive for
/// every triangle: its area is always defined, and never zero.
pub proof fn law_heron_positive(a: int, b: int, c: int)
    by (nonlinear_arith)
    requires
        is_triangle(a, b, c),
    ensures
        heron(a, b, c) > 0,
{
}

/// Among positive sides, the number under the square root of Heron's
/// formula is positive for triangles only.
pub proof fn law_heron_positive_only(a: int, b: int, c: int)
    requires
        a > 0,
        b > 0,
        c > 0,
        heron(a, b, c) > 0,
    ensures
        is_triangle(a, b, c),
{
    let (x, y, z) = (b + c - a, a + c - b, a + b - c);
    assert((a + b + c) * x * y * z > 0 ==> x > 0 && y > 0 && z > 0) by (nonlinear_arith)
        requires
            a + b + c > 0,
            x + y > 0,
            x + z > 0,
            y + z > 0,
    ;
}

/// A triangle of three whole sides `a`, `b`, `c`. Its perimeter is their
/// sum. Its area is the root of Heron's product divided by four. The
/// cosines of its angles are those of the law of cosines:
/// (b² + c² − a²) / 2bc opposite `a`, and so in turn.
pub proof fn law_whole_triangle(t: Tri, c: u16)
    requires
        t.valid(),
        t.side3_squared() == (Square { num: (c * c) as u128, den: 1 }),
    ensures
        is_triangle(t.side1() as int, t.side2() as int, c as int),
        t.exact_peri().unwrap().is_whole(t.side1() + t.side2() + c),
        t.exact_area() matches Some(Measure::RootOver { left, right, over }) && over == 4 && left
            * right == heron(t.side1() as int, t.side2() as int, c as int),
        ({
            let (a, b) = (t.side1() as int, t.side2() as int);
            let angles = t.exact_angles().unwrap();
            &&& angles[0] matches Angle::ArcCos { num: x, left: l0, right: r0 }
            &&& angles[1] matches Angle::ArcCos { num: y, left: l1, right: r1 }
            &&& angles[2] matches Angle::ArcCos { num: z, left: l2, right: r2 }
            &&& x == b * b + c * c - a * a && l0 * r0 == (2 * b * c) * (2 * b * c)
            &&& y == c * c + a * a - b * b && l1 * r1 == (2 * c * a) * (2 * c * a)
            &&& z == a * a + b * b - c * c && l2 * r2 == (2 * a * b) * (2 * a * b)
        }),
{
    law_tri_uncut(t);
    let (a, b, c) = (t.side1() as int, t.side2() as int, c as int);
    lemma_short_product(c, c);
    assert(a - b < c && b - a < c && c < a + b) by (nonlinear_arith)
        requires
            (a - b) * (a - b) * 1 < c * c < (a + b) * (a + b) * 1,
            a > 0,
            b > 0,
            c >= 0,
    ;
    let (s, x, y, z) = (a + b + c, b + c - a, a + c - b, a + b - c);
    assert(x * y == c * c - (a - b) * (a - b) * 1 && s * z == (a + b) * (a + b) * 1 - c * c)
        by (nonlinear_arith)
        requires
            s == a + b + c,
            x == b + c - a,
            y == a + c - b,
            z == a + b - c,
    ;
    assert(s * x * y * z == (x * y) * (s * z)) by (nonlinear_arith);
    assert((4 * (b * b)) * (c * c) == (2 * b * c) * (2 * b * c) && (4 * (a * a)) * (c * c) == (2
        * c * a) * (2 * c * a) && 4 * (a * a * 1 * (b * b * 1)) == (2 * a * b) * (2 * a * b))
        by (nonlinear_arith);
    assert(4 * ((b * b * 1) * (c * c)) == (4 * (b * b)) * (c * c) && 4 * ((c * c) * (a * a * 1))
        == (4 * (a * a)) * (c * c)) by (nonlinear_arith);
}

/// Side-angle-side gives a triangle back. For two sides of a triangle of
/// whole sides and the cosine of the angle between them, as the law of
/// cosines gives it, the cosine lies strictly between minus one and one,
/// and the square of the third side by the law of cosines has the value
/// c². So `Tri::sas` on them returns a triangle with the same three sides:
/// any triangle with these two sides and that square has them.
pub proof fn law_sas_round_trip(a: u16, b: u16, c: u16)
    requires
        is_triangle(a as int, b as int, c as int),
    ensures
        forall|t: Tri, back: Tri|
            t.side1() == a && t.side2() == b && t.side3_squared() == (Square {
                num: (c * c) as u128,
                den: 1,
            }) && back.side1() == a && back.side2() == b && back.side3_squared() == third_square(
                a as int,
                b as int,
                cosine_opposite(c as int, a as int, b as int),
            ) ==> #[trigger] back.same_sides(t),
        ({
            let cosine = cosine_opposite(c as int, a as int, b as int);
            &&& cosine.num == a * a + b * b - c * c
            &&& cosine.den == 2 * a * b
            &&& below_pi(cosine)
            &&& cosine.proper() && cosine.within_unit()
            &&& third_square(a as int, b as int, cosine).same_value(
                Square { num: (c * c) as u128, den: 1 },
            )
        }),
{
    let (a, b, c) = (a as int, b as int, c as int);
    lemma_short_product(c, c);
    lemma_short_product(a, b);
    assert(2 * a * b == 2 * (a * b)) by (nonlinear_arith);
    let (num, den) = (a * a + b * b - c * c, 2 * a * b);
    assert(den > 0 && -den < num < den) by (nonlinear_arith)
        requires
            is_triangle(a, b, c),
            num == a * a + b * b - c * c,
            den == 2 * a * b,
    ;
    assert((a * a + b * b) * den - 2 * a * b * num == c * c * den) by (nonlinear_arith)
        requires
            num == a * a + b * b - c * c,
            den == 2 * a * b,
    ;
    assert(0 <= c * c * den <= 0xffff * 0xffff * (2 * 0xffff * 0xffff)) by (nonlinear_arith)
        requires
            0 <= c * c <= 0xffff * 0xffff,
            0 < den <= 2 * 0xffff * 0xffff,
    ;
}

/// Two equal sides face two equal angles: where the first and the third
/// side of a triangle are equal, so are its first and its third angle.
pub proof fn law_isosceles(t: Tri)
    requires
        t.valid(),
        t.side3_squared().is_square_of(t.side1() as int),
    ensures
        t.exact_angles().unwrap()[0].same_value(t.exact_angles().unwrap()[2]),
{
    law_tri_uncut(t);
    law_cosine_within_unit(t);
    let (p, q, r) = scaled_squares(t);
    assert(q * q >= 0 && q * q * (4 * (p * q)) == q * q * (4 * (q * r))) by (nonlinear_arith)
        requires
            p == r,
    ;
}

/// The triangle cut from a rectangle along its diagonal has a right angle
/// opposite the diagonal, and half the area of the rectangle: the two
/// factors of Heron's product are each twice that area, over four.
pub proof fn law_split_halves(t: Tri, rect: Rect)
    requires
        t.valid(),
        t.side1() == rect.width(),
        t.side2() == rect.height(),
        t.side3_squared() == (Square {
            num: (rect.width() * rect.width() + rect.height() * rect.height()) as u128,
            den: 1,
        }),
    ensures
        t.exact_angles().unwrap()[2].is_right(),
        t.exact_area() matches Some(Measure::RootOver { left, right, over }) && over == 4 && left
            == 2 * (rect.width() * rect.height()) && right == left,
        rect.exact_area() matches Some(Measure::Whole(area)) && area == rect.width()
            * rect.height(),
{
    law_rect_uncut(rect);
    law_cosine_within_unit(t);
    let (w, h) = (rect.width() as int, rect.height() as int);
    lemma_short_product(w, w);
    lemma_short_product(h, h);
    assert((w * w + h * h) - (w - h) * (w - h) * 1 == 2 * (w * h) && (w + h) * (w + h) * 1 - (w
        * w + h * h) == 2 * (w * h)) by (nonlinear_arith);
}

/// A regular polygon of four sides is a square: it has the perimeter, the
/// area and the angles of the square with the same side.
pub proof fn law_quad_is_square(reg: Reg, rect: Rect)
    requires
        reg.sides() == 4,
        rect.width() == reg.length(),
        rect.height() == reg.length(),
    ensures
        reg.exact_peri() == rect.exact_peri(),
        reg.exact_area().unwrap().is_whole(reg.length() * reg.length()),
        rect.exact_area().unwrap().is_whole(reg.length() * reg.length()),
        reg.exact_angles().unwrap().len() == rect.exact_angles().unwrap().len(),
        forall|i: int|
            0 <= i < 4 ==> (#[trigger] reg.exact_angles().unwrap()[i]).same_value(
                rect.exact_angles().unwrap()[i],
            ),
        forall|i: int| 0 <= i < 4 ==> (#[trigger] reg.exact_angles().unwrap()[i]).is_right(),
{
    let l = reg.length() as int;
    assert(0 <= l * l <= 0xffff * 0xffff && l * 4 * l == 4 * (l * l)) by (nonlinear_arith)
        requires
            0 <= l <= 0xffff,
    ;
}

} // verus!
