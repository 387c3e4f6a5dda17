use spirogen::request::PatternError;
use spirogen::request::PatternQuery;
use spirogen::sampling::trace_pattern;
use spirogen::sampling::SAMPLES_PER_LOOP;
use spirogen::scalar::Scalar;
use spirogen::shapes::ShapeType;
use spirogen::wheels::contact_turn;
use spirogen::wheels::wheel_arc_length;

const PI: f64 = std::f64::consts::PI;

fn s(x: f64) -> Scalar {
    Scalar::from_bits(x.to_bits())
}

fn f(x: Scalar) -> f64 {
    f64::from_bits(x.to_bits())
}

fn circle_point(radius: f64, arc: f64) -> (f64, f64) {
    let mut t = (arc / (2.0 * PI * radius)) % 1.0;
    if s(t).lt(Scalar::zero()) {
        t += 1.0;
    }
    (radius * (2.0 * PI * t).cos(), radius * (2.0 * PI * t).sin())
}

fn rotate(theta: f64, p: (f64, f64)) -> (f64, f64) {
    (theta.cos() * p.0 - theta.sin() * p.1, theta.sin() * p.0 + theta.cos() * p.1)
}

fn circle_normal(radius: f64, arc: f64) -> (f64, f64) {
    let a = circle_point(radius, arc);
    let b = circle_point(radius, arc - 0.0001);
    let d = rotate(-PI * 0.5, (a.0 - b.0, a.1 - b.1));
    let mag = (d.0 * d.0 + d.1 * d.1).sqrt();
    (d.0 / mag, d.1 / mag)
}

/// The pen's place at sample `i`, for a circular wheel on a circular guide.
fn pen_point(q: &PatternQuery, inside: bool, i: usize) -> (f64, f64) {
    let guide_radius = f(q.guide_radius);
    let wheel_radius = f(q.wheel_radius);
    let arc = 2.0 * PI * guide_radius * (1.0 / SAMPLES_PER_LOOP as f64) * i as f64;
    let wheel_arc = f(wheel_arc_length(inside, s(arc)));
    let ng = circle_normal(guide_radius, arc);
    let nw = circle_normal(wheel_radius, wheel_arc);
    let theta = ng.1.atan2(ng.0) - nw.1.atan2(nw.0) + f(contact_turn(inside));
    let contact = circle_point(guide_radius, arc);
    let spoke = rotate(PI + theta, circle_point(wheel_radius, wheel_arc));
    let reach = f(q.pen_radius.clamp_unit());
    let on_wheel = circle_point(wheel_radius, 0.5 * f(q.pen_theta) / PI * (2.0 * PI * wheel_radius));
    let pen = (on_wheel.0 * reach, on_wheel.1 * reach);
    let turned = rotate(theta, pen);
    (turned.0 + contact.0 + spoke.0, turned.1 + contact.1 + spoke.1)
}

fn pattern(q: &PatternQuery) -> Result<Vec<(f64, f64)>, PatternError> {
    let inside = q.validate(q.guide_radius)?;
    Ok(trace_pattern(|i: usize| pen_point(q, inside, i)))
}

fn query(guide: f64, wheel: f64, pen_radius: f64, inside: bool) -> PatternQuery {
    PatternQuery {
        guide: ShapeType::Circle,
        wheel: ShapeType::Circle,
        guide_radius: s(guide),
        wheel_radius: s(wheel),
        pen_radius: s(pen_radius),
        pen_theta: s(0.0),
        guide_param: None,
        wheel_param: None,
        inside: Some(inside),
    }
}

#[test]
fn wheel_turns_the_other_way_outside() {
    assert_eq!(f(wheel_arc_length(true, s(2.5))), 2.5);
    assert_eq!(f(wheel_arc_length(false, s(2.5))), -2.5);
    assert_eq!(f(wheel_arc_length(false, s(-2.5))), 2.5);
    for x in [0.0, -0.0, 1.0, -3.5, 1.0e300, f64::INFINITY, f64::NEG_INFINITY] {
        assert_eq!(wheel_arc_length(true, s(x)).to_bits(), (1.0 * x).to_bits());
        assert_eq!(wheel_arc_length(false, s(x)).to_bits(), (-1.0 * x).to_bits());
    }
    assert!(f(wheel_arc_length(false, s(f64::NAN))).is_nan());
    assert!(f(wheel_arc_length(true, s(f64::NAN))).is_nan());
}

#[test]
fn outside_contact_adds_half_a_turn() {
    assert_eq!(f(contact_turn(true)), 0.0);
    assert_eq!(f(contact_turn(false)), PI);
}

#[test]
fn outer_rolling_stays_within_combined_extent() {
    let q = query(10.0, 3.0, 0.5, false);
    let points = pattern(&q).unwrap();
    assert_eq!(points.len(), 300);
    let reach: f64 = 0.5 * 3.0;
    for p in points.iter() {
        assert!(p.0.is_finite() && p.1.is_finite());
        let distance = (p.0 * p.0 + p.1 * p.1).sqrt();
        assert!(distance <= 10.0 + 3.0 + reach + 1.0e-6);
        assert!(distance >= 10.0 + 3.0 - reach - 1.0e-6);
    }
    let first = pen_point(&q, false, 0);
    assert_eq!(points[0], first);
    assert_eq!(points[299], pen_point(&q, false, 299));
}

#[test]
fn deltoid_has_three_cusps_inside_the_guide() {
    let q = query(3.0, 1.0, 1.0, true);
    let points = pattern(&q).unwrap();
    assert_eq!(points.len(), 300);
    for p in points.iter() {
        assert!((p.0 * p.0 + p.1 * p.1).sqrt() <= 3.0 + 1.0e-3);
    }
    let start = points[0];
    assert!((start.0 - 3.0).abs() < 1.0e-3 && start.1.abs() < 1.0e-3);
    let mut returns: Vec<usize> = Vec::new();
    for i in 0..points.len() {
        let p = points[i];
        if (p.0 - start.0).abs() < 1.0e-3 && (p.1 - start.1).abs() < 1.0e-3 {
            returns.push(i);
        }
    }
    assert_eq!(returns, vec![0, SAMPLES_PER_LOOP, 2 * SAMPLES_PER_LOOP]);
    let mut cusps: Vec<usize> = Vec::new();
    for i in 0..SAMPLES_PER_LOOP {
        let p = points[i];
        if ((p.0 * p.0 + p.1 * p.1).sqrt() - 3.0).abs() < 3.0e-3 {
            cusps.push(i);
        }
    }
    assert_eq!(cusps, vec![0, 33, 67]);
}

#[test]
fn wheel_equal_to_guide_retraces_it_inside() {
    let q = query(2.0, 2.0, 1.0, true);
    let points = pattern(&q).unwrap();
    for i in 0..points.len() {
        let p = points[i];
        assert!((p.0 - 2.0).abs() < 1.0e-6 && p.1.abs() < 1.0e-6, "sample {} at {:?}", i, p);
    }
}

#[test]
fn oversized_wheel_is_rejected_before_tracing() {
    let q = query(3.0, 5.0, 0.5, true);
    assert_eq!(pattern(&q), Err(PatternError::WheelDoesNotFit));
}
