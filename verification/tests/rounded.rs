use polys::{
    all_or_missing, Angle, Circle, Measure, Polygon, Ratio, Rect, Reg, ShapeError, Square, Tri,
};
use std::f64::consts::PI;

fn value(m: Option<Measure>) -> f64 {
    match m.expect("no shape of the library leaves a measure missing") {
        Measure::Whole(n) => n as f64,
        Measure::PiTimes(n) => PI * n as f64,
        Measure::WholePlusRoot { whole, square } => whole as f64 + root(square),
        Measure::RootOver { left, right, over } => (left as f64 * right as f64).sqrt() / over as f64,
        Measure::OverFourTan { num, sides } => num as f64 / (4.0 * (PI / sides as f64).tan()),
    }
}

fn root(square: Square) -> f64 {
    (square.num as f64 / square.den as f64).sqrt()
}

fn reading(angle: Angle) -> f64 {
    match angle {
        Angle::Degrees(r) => r.num as f64 / r.den as f64,
        Angle::ArcCos { num, left, right } => (num as f64 / (left as f64 * right as f64).sqrt()).acos(),
    }
}

fn values(angles: Option<Vec<Angle>>) -> Vec<f64> {
    angles
        .expect("no shape of the library leaves its angles missing")
        .into_iter()
        .map(reading)
        .collect()
}

/// The cosine of an angle in radians as a fraction over 2^52.
fn cosine(radians: f64) -> Ratio {
    let steps: i64 = 1 << 52;
    Ratio { num: (radians.cos() * steps as f64).round() as i64, den: steps }
}

fn close(x: f64, y: f64) -> bool {
    (x - y).abs() <= 1e-12 * x.abs().max(y.abs()).max(1.0)
}

#[test]
fn rect_10_by_5_rounded() {
    let rect = Rect::new(10, 5).unwrap();
    assert_eq!(value(rect.area()), 50.0);
    assert_eq!(value(rect.peri()), 30.0);
    assert_eq!(values(rect.angles()), vec![90.0; 4]);
}

#[test]
fn circle_of_radius_5_rounded() {
    let circle = Circle::new(5).unwrap();
    assert_eq!(value(circle.area()), PI * 25.0);
    assert_eq!(value(circle.peri()), 10.0 * PI);
    assert!(values(circle.angles()).is_empty());
}

#[test]
fn tri_24_30_18_rounded() {
    let tri = Tri::new(24, 30, 18).unwrap();
    assert_eq!(value(tri.area()), 216.0);
    assert_eq!(value(tri.peri()), 72.0);
}

#[test]
fn tri_3_4_5_rounded() {
    let tri = Tri::new(3, 4, 5).unwrap();
    assert_eq!(value(tri.area()), 6.0);
    let angles = values(tri.angles());
    assert_eq!(angles[2], PI / 2.0);
    assert!(close(angles[0] + angles[1] + angles[2], PI));
}

#[test]
fn tri_angles_add_up_to_pi() {
    let ang = values(Tri::new(24, 30, 24).unwrap().angles());
    assert_eq!(ang[0] + ang[1] + ang[2], PI);
    assert_eq!(ang[0], ang[2]);

    let ang = values(Tri::new(12, 19, 8).unwrap().angles());
    assert_eq!(ang[0] + ang[1] + ang[2], PI);

    let ang = values(Tri::new(12, 12, 12).unwrap().angles());
    assert_eq!((ang[0] + ang[1] + ang[2]) as f32, PI as f32);
}

#[test]
fn tri_angles_are_normal_numbers() {
    for (a, b, c) in [(3, 4, 5), (1, 1, 1), (1, 65535, 65535), (65535, 65535, 1), (2, 3, 4)] {
        for angle in values(Tri::new(a, b, c).unwrap().angles()) {
            assert!(angle.is_normal());
            assert!(0.0 < angle && angle < PI);
        }
    }
}

#[test]
fn sas_round_trip_rounded() {
    let t1 = Tri::new(24, 30, 18).unwrap();
    let angle = values(t1.angles())[2];
    let t2 = Tri::sas(24, 30, cosine(angle)).unwrap();
    assert!(close(root(t2.side3_squared()), 18.0));
    assert_eq!(root(t1.side3_squared()), 18.0);
    assert!(close(value(t2.area()), 216.0));
    assert!(close(value(t2.peri()), 72.0));
}

#[test]
fn sas_rejects_pi_and_takes_three_radians() {
    assert_eq!(PI.cos(), -1.0);
    assert_eq!(Tri::sas(3, 4, cosine(PI)), Err(ShapeError::InvalidAngle));
    let tri = Tri::sas(3, 4, cosine(3.0)).unwrap();
    let side3 = root(tri.side3_squared());
    assert!(side3 < 7.0);
    assert!(close(side3, (25.0 - 24.0 * 3.0_f64.cos()).sqrt()));
    assert!(side3 > 0.0 && 1.0 < side3);
}

#[test]
fn sas_with_any_angle_between_the_sides() {
    for radians in [0.001, 0.5, 1.0, PI / 3.0, PI / 2.0, 2.0, 3.0, 3.14] {
        let tri = Tri::sas(5, 7, cosine(radians)).unwrap();
        let side3 = root(tri.side3_squared());
        assert!(close(side3 * side3, 25.0 + 49.0 - 70.0 * radians.cos()));
        assert!(2.0 < side3 && side3 < 12.0);
        let angles = values(tri.angles());
        assert!(close(angles[2], radians));
        assert!((angles[0] + angles[1] + angles[2] - PI).abs() < 1e-9);
        // half the product of the sides and the sine of the angle
        assert!((value(tri.area()) - 0.5 * 35.0 * radians.sin()).abs() < 1e-9);
        assert!(close(value(tri.peri()), 12.0 + side3));
    }
}

#[test]
fn rect_1_by_1_splits_along_the_root_of_two() {
    let half = Rect::new(1, 1).unwrap().split().unwrap();
    assert_eq!(root(half.side3_squared()), 2.0_f64.sqrt());
    assert_eq!(value(half.area()), 0.5);
    assert_eq!(value(half.peri()), 2.0 + 2.0_f64.sqrt());
    let angles = values(half.angles());
    assert_eq!(angles[2], PI / 2.0);
    assert!(close(angles[0], PI / 4.0));
    assert!(close(angles[1], PI / 4.0));
}

#[test]
fn reg_3_5_rounded() {
    let reg = Reg::new(3, 5).unwrap();
    assert_eq!(value(reg.peri()), 15.0);
    assert!(close(value(reg.area()), 15.484296605300704));
    // half of perimeter times apothem, step by step
    let apothem = reg.length() as f64 / (2.0 * (PI / reg.sides() as f64).tan());
    assert_eq!(value(reg.peri()) * apothem * 0.5, 15.484296605300704);
}

#[test]
fn reg_of_four_sides_rounded() {
    let square = Rect::square(7).unwrap();
    let reg = Reg::new(7, 4).unwrap();
    assert_eq!(value(square.area()) as i32, value(reg.area()) as i32);
    assert!(close(value(square.area()), value(reg.area())));
    assert_eq!(value(square.peri()), value(reg.peri()));
}

#[test]
fn reg_pentagon_rounded() {
    let poly = Reg::pent(12).unwrap();
    let angles = values(poly.angles());
    assert_eq!(angles[0], 108.0);
    assert_eq!(angles.len(), 5);
}

#[test]
fn rect_split_rounded() {
    let half = Rect::new(3, 4).unwrap().split().unwrap();
    assert_eq!(root(half.side3_squared()), 5.0);
    assert_eq!(values(half.angles())[2], PI / 2.0);
}

#[test]
fn readings_all_present_are_gathered_in_order() {
    let angles = Tri::new(3, 4, 5).unwrap().angles().unwrap();
    let readings: Vec<Option<f64>> = angles
        .into_iter()
        .map(|a| match a {
            Angle::ArcCos { .. } => Some(reading(a)).filter(|x| x.is_normal()),
            Angle::Degrees(_) => Some(reading(a)),
        })
        .collect();
    let all = all_or_missing(&readings).unwrap();
    assert_eq!(all, vec![(4.0_f64 / 5.0).acos(), (3.0_f64 / 5.0).acos(), PI / 2.0]);
}

#[test]
fn readings_with_one_missing_are_all_missing() {
    // an arc cosine that rounds to zero is no normal number
    let flat = Some(1.0_f64.acos()).filter(|x| x.is_normal());
    assert_eq!(flat, None);
    assert_eq!(all_or_missing(&vec![Some(1.0), flat, Some(2.0)]), None);
    assert_eq!(all_or_missing(&vec![flat, Some(1.0)]), None);
    assert_eq!(all_or_missing(&vec![Some(1.0), Some(2.0), flat]), None);
    assert_eq!(all_or_missing(&vec![Some(1.0), Some(2.0)]), Some(vec![1.0, 2.0]));
    assert_eq!(all_or_missing::<f64>(&vec![]), Some(vec![]));
}
