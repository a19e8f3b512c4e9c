use mass_props::planar::{ColliderMassProperties, MassPropertiesBundle, ShapeMassProperties};
use mass_props::scalar::Scalar;
use mass_props::vector::Vector2;
use parry2d::shape::{Ball, Cuboid, Shape};

fn single(x: f32) -> Scalar {
    Scalar::from_ieee_single(x.to_bits())
}

fn shape_properties(shape: &dyn Shape, density: f32) -> ShapeMassProperties {
    let props = shape.mass_properties(density);
    ShapeMassProperties {
        mass: single(props.mass()),
        inverse_mass: single(props.inv_mass),
        principal_inertia: single(props.principal_inertia()),
        local_center_of_mass: Vector2::new(single(props.local_com.x), single(props.local_com.y)),
    }
}

#[test]
fn disc_of_unit_density() {
    let ball = Ball::new(0.5);
    let raw = ball.mass_properties(1.0);
    let props = ColliderMassProperties::new(&shape_properties(&ball, 1.0), single(1.0));

    assert!(props.mass().is_finite());
    assert!(props.mass().is_positive());
    assert!(props.inertia().is_finite());
    assert!(props.inertia().is_positive());
    assert_eq!(props.center_of_mass(), Vector2::zero());

    assert_eq!(props.inverse_mass(), single(raw.inv_mass));
    assert_eq!(props.mass(), single(raw.mass()));
    assert_eq!(raw.inv_mass, 1.0 / (std::f32::consts::PI * 0.25));
    assert_eq!(props.inverse_inertia(), props.inertia().recip());

    let (n, d) = props.mass().parts();
    assert_eq!(n as f64 / d as f64, raw.mass() as f64);
    let product = props.mass().mul(props.inverse_mass());
    let (n, d) = product.parts();
    assert!((n as f64 / d as f64 - 1.0).abs() < 1.0e-6);
}

#[test]
fn disc_of_zero_density() {
    let ball = Ball::new(0.5);
    let props = ColliderMassProperties::new(&shape_properties(&ball, 0.0), single(0.0));
    assert_eq!(props, ColliderMassProperties::zero());
}

#[test]
fn two_colliders_on_one_body() {
    let ball = Ball::new(0.5);
    let massless = ColliderMassProperties::new(&shape_properties(&ball, 0.0), single(0.0));
    let massive = ColliderMassProperties::new(&shape_properties(&ball, 1.0), single(1.0));
    let m = single(ball.mass_properties(1.0).mass());
    assert_eq!(massless.mass().add(massive.mass()), m);
    assert_eq!(massive.mass().add(massless.mass()), m);
}

#[test]
fn bundle_of_a_unit_square() {
    let square = Cuboid::new([0.5, 0.5].into());
    let shape = shape_properties(&square, 1.0);
    let bundle = MassPropertiesBundle::new_computed(&shape, single(1.0));
    let props = ColliderMassProperties::new(&shape, single(1.0));
    assert_eq!(bundle.mass.0, props.mass());
    assert_eq!(bundle.inverse_mass.0, props.inverse_mass());
    assert_eq!(bundle.inertia.0, props.inertia());
    assert_eq!(bundle.inverse_inertia.0, props.inverse_inertia());
    assert_eq!(bundle.center_of_mass.0, props.center_of_mass());
    assert_eq!(bundle.mass.0, Scalar::one());
    assert_eq!(bundle.inverse_mass.0, Scalar::one());
}
