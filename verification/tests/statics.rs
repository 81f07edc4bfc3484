use extra_asserts::assert_approx_eq;
use statics::Angle;
use statics::Mass;
use statics::Vector;

#[test]
fn it_works() {
    assert_eq!(2 + 2, 4);
}

#[test]
fn angle_1deg_is_pi_by_180() {
    let actual = Angle::Deg(1.0f64.to_bits());
    assert_eq!(
        f64::from_bits(actual.as_rad().value_bits()),
        std::f64::consts::PI / 180.0
    );
}

#[test]
fn angle_pi_is_180deg() {
    let actual = Angle::Rad(std::f64::consts::PI.to_bits());
    assert_eq!(f64::from_bits(actual.as_deg().value_bits()), 180.0);
}

#[test]
fn angle_round_trips_through_radians() {
    let original = Angle::Deg(180.0f64.to_bits());
    assert_eq!(original.as_rad().as_deg(), original);
    let other = Angle::Deg((-720.25f64).to_bits());
    assert_eq!(other.as_rad().as_deg(), other);
    // Thirty degrees does not round-trip to the same bit pattern, but the
    // difference lies under the tolerance, so the angles still compare
    // equal.
    let thirty = Angle::Deg(30.0f64.to_bits());
    let back = thirty.as_rad().as_deg();
    assert_ne!(back.value_bits(), thirty.value_bits());
    assert_eq!(back, thirty);
}

#[test]
fn angle_equality_crosses_units() {
    let in_degrees = Angle::Deg(1.0f64.to_bits());
    let in_radians = Angle::Rad((std::f64::consts::PI / 180.0).to_bits());
    assert_eq!(in_degrees, in_radians);
    assert_eq!(in_radians, in_degrees);
}

#[test]
fn angle_equality_tolerance_boundary() {
    let zero = Angle::Deg(0.0f64.to_bits());
    let at_tolerance = Angle::Deg(1e-10f64.to_bits());
    let under_tolerance = Angle::Deg(1e-11f64.to_bits());
    assert_ne!(zero, at_tolerance);
    assert_ne!(at_tolerance, zero);
    assert_eq!(zero, under_tolerance);
    assert_eq!(under_tolerance, zero);
}

#[test]
fn conversions_into_the_same_unit_change_nothing() {
    let rad = Angle::Rad(2.5f64.to_bits());
    assert_eq!(rad.as_rad().value_bits(), 2.5f64.to_bits());
    let deg = Angle::Deg(33.3f64.to_bits());
    assert_eq!(deg.as_deg().value_bits(), 33.3f64.to_bits());
    assert_eq!(Mass::G(5.5f64.to_bits()).as_gram(), Mass::G(5.5f64.to_bits()));
    assert_eq!(Mass::Lb(5.5f64.to_bits()).as_lb(), Mass::Lb(5.5f64.to_bits()));
}

#[test]
fn one_lb_is_about_453_grams() {
    let mass = Mass::Lb(1.0f64.to_bits());
    assert_approx_eq(f64::from_bits(mass.as_gram().value_bits()), 453.0, &1.0);
}

#[test]
fn one_kg_is_about_2_2_pounds() {
    let mass = Mass::G(1000.0f64.to_bits());
    assert_approx_eq(f64::from_bits(mass.as_lb().value_bits()), 2.2, &1e-1);
}

#[test]
fn mass_equality_is_structural() {
    assert_ne!(Mass::Lb(1.0f64.to_bits()), Mass::G(453.59237f64.to_bits()));
    assert_eq!(Mass::Lb(1.0f64.to_bits()), Mass::Lb(1.0f64.to_bits()));
    assert_ne!(Mass::Lb(1.0f64.to_bits()), Mass::Lb(2.0f64.to_bits()));
    // The stored values compare as IEEE-754 values: a NaN equals nothing,
    // and the two zeros are equal.
    assert_ne!(Mass::Lb(f64::NAN.to_bits()), Mass::Lb(f64::NAN.to_bits()));
    assert_eq!(Mass::G(0.0f64.to_bits()), Mass::G((-0.0f64).to_bits()));
}

#[test]
fn mass_subtraction_keeps_the_minuend_unit() {
    let difference = Mass::Lb(10.0f64.to_bits()).sub(Mass::G(0.0f64.to_bits()));
    assert_eq!(difference, Mass::Lb(10.0f64.to_bits()));
    assert!(matches!(difference, Mass::Lb(_)));
}

#[test]
fn mass_subtraction_converts_the_subtrahend() {
    let difference = Mass::G(1000.0f64.to_bits()).sub(Mass::Lb(1.0f64.to_bits()));
    assert!(matches!(difference, Mass::G(_)));
    assert_eq!(f64::from_bits(difference.value_bits()), 1000.0 - 453.59237);
}

#[test]
fn mass_scaling_keeps_the_unit() {
    let scaled = Mass::G(2.5f64.to_bits()).mul(4.0f64.to_bits());
    assert_eq!(scaled, Mass::G(10.0f64.to_bits()));
    let scaled_lb = Mass::Lb(2.5f64.to_bits()).mul(4.0f64.to_bits());
    assert_eq!(scaled_lb, Mass::Lb(10.0f64.to_bits()));
}

#[test]
fn mass_ordering_follows_the_values_within_a_unit() {
    assert!(Mass::Lb(1.0f64.to_bits()) < Mass::Lb(2.0f64.to_bits()));
    assert!(Mass::G(2.0f64.to_bits()) > Mass::G(1.0f64.to_bits()));
    let nan = Mass::Lb(f64::NAN.to_bits());
    assert_eq!(nan.partial_cmp(&nan), None);
}

#[test]
fn mass_ordering_puts_pounds_before_grams() {
    assert!(Mass::Lb(1000.0f64.to_bits()) < Mass::G(1.0f64.to_bits()));
    assert!(Mass::G(1.0f64.to_bits()) > Mass::Lb(1000.0f64.to_bits()));
}

#[test]
fn vector_unit_has_magnitude_of_one_and_angle_of_zero() {
    let vector = Vector::unit();
    assert_eq!(vector.mag(), Mass::Lb(1.0f64.to_bits()));
    assert_eq!(vector.angle(), &Angle::Deg(0.0f64.to_bits()));
}

#[test]
fn vector_has_magnitude() {
    let vector = Vector::from_mag_and_angle(Mass::Lb(5.0f64.to_bits()), Angle::Deg(0.0f64.to_bits()));
    assert_eq!(vector.mag(), Mass::Lb(5.0f64.to_bits()));
}

#[test]
fn vector_has_angle() {
    let vector = Vector::from_mag_and_angle(Mass::Lb(1.0f64.to_bits()), Angle::Deg(90.0f64.to_bits()));
    assert_eq!(vector.angle(), &Angle::Deg(90.0f64.to_bits()));
}

#[test]
fn vector_has_vertical_component() {
    let vector = Vector::from_mag_and_angle(Mass::Lb(500.0f64.to_bits()), Angle::Deg(20.0f64.to_bits()));
    let vert = vector.vertical();
    assert_approx_eq(f64::from_bits(vert.mag().value_bits()), 171.0, &1e-1);
    assert!(matches!(vert.mag(), Mass::Lb(_)));
    assert_eq!(f64::from_bits(vert.angle().as_deg().value_bits()), 0.0);
}

#[test]
fn vector_has_horizontal_component() {
    let vector = Vector::from_mag_and_angle(Mass::Lb(500.0f64.to_bits()), Angle::Deg(20.0f64.to_bits()));
    let horiz = vector.horizontal();
    assert_approx_eq(f64::from_bits(horiz.mag().value_bits()), 469.8, &1e-1);
    assert!(matches!(horiz.mag(), Mass::Lb(_)));
    assert_eq!(f64::from_bits(horiz.angle().as_deg().value_bits()), 90.0);
}

#[test]
fn vertical_component_of_a_gram_vector_stays_in_grams() {
    let vector = Vector::from_mag_and_angle(Mass::G(500.0f64.to_bits()), Angle::Deg(20.0f64.to_bits()));
    assert!(matches!(vector.vertical().mag(), Mass::G(_)));
    assert!(matches!(vector.horizontal().mag(), Mass::G(_)));
}

#[test]
fn vector_components_accept_a_radian_angle() {
    let vector = Vector::from_mag_and_angle(
        Mass::Lb(500.0f64.to_bits()),
        Angle::Rad(20.0f64.to_radians().to_bits()),
    );
    assert_approx_eq(f64::from_bits(vector.vertical().mag().value_bits()), 171.0, &1e-1);
    assert_approx_eq(f64::from_bits(vector.horizontal().mag().value_bits()), 469.8, &1e-1);
}
