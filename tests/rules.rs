use area_crate::measure::FULL_TURN_BITS;
use area_crate::{
    check_all_positive, check_angle, check_annulus, check_polygon, check_positive, check_sector,
    check_triangle, GeometryError, Measure,
};

fn m(x: f64) -> Measure {
    Measure::from_bits(x.to_bits())
}

fn invalid_input_text(r: Result<(), GeometryError>) -> String {
    match r {
        Err(GeometryError::InvalidInput(text)) => text,
        other => panic!("expected InvalidInput, got {:?}", other),
    }
}

const SAMPLES: [f64; 14] = [
    0.0,
    -0.0,
    1.0,
    -1.0,
    2.5,
    -2.5,
    360.0,
    360.00000000000006,
    1e-310,
    -1e-310,
    f64::MAX,
    f64::INFINITY,
    f64::NEG_INFINITY,
    f64::NAN,
];

#[test]
fn full_turn_pattern_is_360_degrees() {
    assert_eq!(360.0f64.to_bits(), FULL_TURN_BITS);
}

#[test]
fn comparisons_agree_with_doubles() {
    for &x in SAMPLES.iter() {
        assert_eq!(m(x).is_nan(), x.is_nan());
        for &y in SAMPLES.iter() {
            assert_eq!(m(x).le(m(y)), x <= y, "{} <= {}", x, y);
            assert_eq!(m(x).lt(m(y)), x < y, "{} < {}", x, y);
        }
    }
}

#[test]
fn positive_rule_rejects_zero_and_negatives() {
    for x in [0.0, -0.0, -1.0, -1e-310, f64::NEG_INFINITY] {
        assert!(matches!(check_positive(m(x)), Err(GeometryError::NegativeValue)), "{}", x);
    }
    for x in [1.0, 1e-310, 5.0, f64::INFINITY] {
        assert!(check_positive(m(x)).is_ok(), "{}", x);
    }
}

#[test]
fn positive_rule_rejects_nan() {
    assert_eq!(invalid_input_text(check_positive(m(f64::NAN))), "Measurement is not a number");
    assert_eq!(invalid_input_text(check_positive(m(-f64::NAN))), "Measurement is not a number");
}

#[test]
fn all_positive_rule_reports_sign_before_nan() {
    assert!(matches!(
        check_all_positive(&[m(1.0), m(f64::NAN), m(0.0)]),
        Err(GeometryError::NegativeValue)
    ));
    assert!(matches!(
        check_all_positive(&[m(f64::NAN), m(0.0)]),
        Err(GeometryError::NegativeValue)
    ));
    assert_eq!(
        invalid_input_text(check_all_positive(&[m(1.0), m(f64::NAN), m(2.0)])),
        "Measurement is not a number"
    );
}

#[test]
fn all_positive_rule() {
    assert!(check_all_positive(&[]).is_ok());
    assert!(check_all_positive(&[m(10.0), m(20.0), m(30.0)]).is_ok());
    assert!(matches!(
        check_all_positive(&[m(10.0), m(20.0), m(0.0)]),
        Err(GeometryError::NegativeValue)
    ));
    assert!(matches!(
        check_all_positive(&[m(-3.0), m(20.0)]),
        Err(GeometryError::NegativeValue)
    ));
}

#[test]
fn square_and_rectangle_validate_alike() {
    for s in [0.0, -2.0, 5.0] {
        assert_eq!(check_all_positive(&[m(s)]).is_ok(), check_all_positive(&[m(s), m(s)]).is_ok());
    }
}

#[test]
fn angle_rule() {
    assert!(check_angle(m(30.0)).is_ok());
    assert!(check_angle(m(360.0)).is_ok());
    for a in [0.0, -0.0, -45.0, 360.00000000000006, 720.0, f64::NAN] {
        assert!(matches!(check_angle(m(a)), Err(GeometryError::InvalidAngle)), "{}", a);
    }
}

#[test]
fn sector_rules() {
    assert!(check_sector(m(10.0), m(30.0)).is_ok());
    assert!(matches!(check_sector(m(10.0), m(400.0)), Err(GeometryError::InvalidAngle)));
    assert!(matches!(check_sector(m(10.0), m(0.0)), Err(GeometryError::InvalidAngle)));
    assert!(matches!(check_sector(m(0.0), m(30.0)), Err(GeometryError::NegativeValue)));
    assert!(matches!(check_sector(m(-1.0), m(400.0)), Err(GeometryError::NegativeValue)));
    assert!(matches!(check_sector(m(10.0), m(f64::NAN)), Err(GeometryError::InvalidAngle)));
    assert_eq!(invalid_input_text(check_sector(m(f64::NAN), m(30.0))), "Measurement is not a number");
    assert!(matches!(check_sector(m(f64::NAN), m(400.0)), Err(GeometryError::InvalidAngle)));
}

#[test]
fn annulus_rules() {
    assert!(check_annulus(m(10.0), m(5.0)).is_ok());
    let message = "Inner radius must be smaller than outer radius";
    assert_eq!(invalid_input_text(check_annulus(m(5.0), m(10.0))), message);
    assert_eq!(invalid_input_text(check_annulus(m(5.0), m(5.0))), message);
    assert!(matches!(check_annulus(m(0.0), m(5.0)), Err(GeometryError::NegativeValue)));
    assert!(matches!(check_annulus(m(10.0), m(0.0)), Err(GeometryError::NegativeValue)));
    assert!(matches!(check_annulus(m(-1.0), m(-2.0)), Err(GeometryError::NegativeValue)));
    assert_eq!(invalid_input_text(check_annulus(m(10.0), m(f64::NAN))), "Measurement is not a number");
    assert!(matches!(check_annulus(m(0.0), m(f64::NAN)), Err(GeometryError::NegativeValue)));
    assert!(matches!(check_annulus(m(f64::NAN), m(0.0)), Err(GeometryError::NegativeValue)));
    assert_eq!(invalid_input_text(check_annulus(m(f64::NAN), m(5.0))), "Measurement is not a number");
}

#[test]
fn triangle_rules() {
    let sides = |a: f64, b: f64, c: f64| check_triangle(m(a), m(b), m(c), m(a + b), m(b + c), m(a + c));
    assert!(sides(3.0, 4.0, 5.0).is_ok());
    assert_eq!(invalid_input_text(sides(1.0, 1.0, 3.0)), "Invalid triangle sides");
    assert_eq!(invalid_input_text(sides(1.0, 1.0, 2.0)), "Invalid triangle sides");
    assert_eq!(invalid_input_text(sides(5.0, 1.0, 1.0)), "Invalid triangle sides");
    assert!(matches!(sides(0.0, 1.0, 1.0), Err(GeometryError::NegativeValue)));
    assert!(matches!(sides(1.0, 1.0, -3.0), Err(GeometryError::NegativeValue)));
    assert_eq!(invalid_input_text(sides(3.0, f64::NAN, 5.0)), "Measurement is not a number");
    assert!(matches!(
        check_triangle(m(f64::NAN), m(0.0), m(1.0), m(f64::NAN), m(1.0), m(f64::NAN)),
        Err(GeometryError::NegativeValue)
    ));
    assert!(matches!(sides(0.0, 1.0, 3.0), Err(GeometryError::NegativeValue)));
}

#[test]
fn polygon_rules() {
    assert!(check_polygon(6, m(2.0)).is_ok());
    assert!(check_polygon(3, m(1.0)).is_ok());
    let message = "Polygon must have at least 3 sides";
    assert_eq!(invalid_input_text(check_polygon(2, m(5.0))), message);
    assert_eq!(invalid_input_text(check_polygon(0, m(-1.0))), message);
    assert!(matches!(check_polygon(3, m(0.0)), Err(GeometryError::NegativeValue)));
    assert_eq!(invalid_input_text(check_polygon(5, m(f64::NAN))), "Measurement is not a number");
}

#[test]
fn zero_value_is_a_distinct_kind() {
    let e = GeometryError::ZeroValue;
    assert!(matches!(e, GeometryError::ZeroValue));
    assert!(!matches!(e, GeometryError::NegativeValue));
}
