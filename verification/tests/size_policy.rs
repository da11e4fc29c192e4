use mathimg::size::{resolve, ScaleFactors, SizeConstraint, SizeError, TargetDimensions};

fn none_constraint() -> SizeConstraint {
    SizeConstraint { width: None, height: None }
}

#[test]
fn no_constraint_uses_default_height() {
    let r = resolve(100, 50, &none_constraint()).unwrap();
    assert_eq!(r.0, TargetDimensions { width: 512, height: 256 });
    assert_eq!(r.1, ScaleFactors { x_num: 512, x_den: 100, y_num: 256, y_den: 50 });
}

#[test]
fn width_only_preserves_aspect() {
    let c = SizeConstraint { width: Some(50), height: None };
    let r = resolve(200, 100, &c).unwrap();
    assert_eq!(r.0, TargetDimensions { width: 50, height: 25 });
    assert_eq!(r.1, ScaleFactors { x_num: 50, x_den: 200, y_num: 25, y_den: 100 });
}

#[test]
fn height_only_preserves_aspect() {
    let c = SizeConstraint { width: None, height: Some(50) };
    let r = resolve(100, 200, &c).unwrap();
    assert_eq!(r.0, TargetDimensions { width: 25, height: 50 });
    assert_eq!(r.1, ScaleFactors { x_num: 25, x_den: 100, y_num: 50, y_den: 200 });
}

#[test]
fn both_given_taken_exactly_without_aspect() {
    let c = SizeConstraint { width: Some(30), height: Some(60) };
    let r = resolve(100, 100, &c).unwrap();
    assert_eq!(r.0, TargetDimensions { width: 30, height: 60 });
    assert_eq!(r.1, ScaleFactors { x_num: 30, x_den: 100, y_num: 60, y_den: 100 });
}

#[test]
fn rounding_is_half_away_from_zero() {
    // height = round(3 * 3 / 2) = round(4.5) = 5
    let c = SizeConstraint { width: Some(3), height: None };
    let r = resolve(2, 3, &c).unwrap();
    assert_eq!(r.0, TargetDimensions { width: 3, height: 5 });
}

#[test]
fn zero_intrinsic_width_fails() {
    let c = SizeConstraint { width: Some(30), height: Some(60) };
    assert_eq!(resolve(0, 100, &c), Err(SizeError::ZeroIntrinsicDimension));
    assert_eq!(resolve(0, 100, &none_constraint()), Err(SizeError::ZeroIntrinsicDimension));
}

#[test]
fn zero_intrinsic_height_fails() {
    assert_eq!(resolve(100, 0, &none_constraint()), Err(SizeError::ZeroIntrinsicDimension));
}

#[test]
fn resolved_zero_height_fails() {
    // round(1 * 1 / 1000) = 0: a degenerate target is an error, never clamped.
    let c = SizeConstraint { width: Some(1), height: None };
    assert_eq!(resolve(1000, 1, &c), Err(SizeError::InvalidTargetSize));
}

#[test]
fn explicit_zero_width_fails() {
    let c = SizeConstraint { width: Some(0), height: Some(10) };
    assert_eq!(resolve(100, 100, &c), Err(SizeError::InvalidTargetSize));
}
