use mass_props::mass::{ColliderDensity, InverseMass, Mass};
use mass_props::planar::{
    CenterOfMass, ColliderMassProperties, Inertia, InverseInertia, MassPropertiesBundle, Rotation,
    ShapeMassProperties,
};
use mass_props::scalar::Scalar;
use mass_props::vector::Vector2;

fn q(n: i64, d: i64) -> Scalar {
    Scalar::new(n, d)
}

fn disc_like_shape() -> ShapeMassProperties {
    ShapeMassProperties {
        mass: q(3, 4),
        inverse_mass: q(4, 3),
        principal_inertia: q(3, 32),
        local_center_of_mass: Vector2::new(q(1, 2), q(-1, 3)),
    }
}

#[test]
fn zero_values() {
    assert_eq!(Mass::zero().0, Scalar::zero());
    assert_eq!(InverseMass::zero().0, Scalar::zero());
    assert_eq!(Inertia::zero().0, Scalar::zero());
    assert_eq!(InverseInertia::zero().0, Scalar::zero());
    assert_eq!(CenterOfMass::zero().0, Vector2::new(Scalar::zero(), Scalar::zero()));
    assert_eq!(ColliderDensity::zero().0, Scalar::zero());
}

#[test]
fn defaults() {
    assert_eq!(Mass::default(), Mass::zero());
    assert_eq!(InverseMass::default(), InverseMass::zero());
    assert_eq!(Inertia::default(), Inertia::zero());
    assert_eq!(InverseInertia::default(), InverseInertia::zero());
    assert_eq!(CenterOfMass::default(), CenterOfMass::zero());
    assert_eq!(ColliderDensity::default().0, Scalar::one());
    assert_eq!(ColliderMassProperties::default(), ColliderMassProperties::zero());
    let bundle = MassPropertiesBundle::default();
    assert_eq!(bundle.mass, Mass::zero());
    assert_eq!(bundle.inverse_mass, InverseMass::zero());
    assert_eq!(bundle.inertia, Inertia::zero());
    assert_eq!(bundle.inverse_inertia, InverseInertia::zero());
    assert_eq!(bundle.center_of_mass, CenterOfMass::zero());
}

#[test]
fn planar_rotation_changes_nothing() {
    let rot = Rotation { cos: q(3, 5), sin: q(4, 5) };
    let inertia = Inertia(q(7, 3));
    assert_eq!(inertia.rotated(&rot), inertia);
    let inverse = InverseInertia(q(3, 7));
    assert_eq!(inverse.rotated(&rot), inverse);
}

#[test]
fn inverse_is_the_reciprocal() {
    assert_eq!(Inertia(q(7, 3)).inverse(), InverseInertia(q(3, 7)));
    assert_eq!(InverseInertia(q(3, 7)).inverse(), Inertia(q(7, 3)));
    assert_eq!(Inertia(q(4, 1)).inverse(), InverseInertia(q(1, 4)));
}

#[test]
fn inverse_round_trip() {
    for (n, d) in [(1, 1), (7, 3), (1, 1000), (123456789, 1000), (i64::MAX, 1), (1, i64::MAX)] {
        let inertia = Inertia(q(n, d));
        assert_eq!(inertia.inverse().inverse(), inertia);
    }
    assert_eq!(Inertia::zero().inverse().inverse(), Inertia::zero());
}

#[test]
fn inverse_of_zero_inertia_is_infinite() {
    assert_eq!(Inertia::zero().inverse(), InverseInertia(Scalar::infinity()));
    assert_eq!(InverseInertia(Scalar::infinity()).inverse(), Inertia::zero());
    assert_eq!(InverseInertia::zero().inverse(), Inertia(Scalar::infinity()));
}

#[test]
fn conversion_inverts() {
    assert_eq!(InverseInertia::from(Inertia(q(5, 2))), InverseInertia(q(2, 5)));
    assert_eq!(Inertia::from(InverseInertia(q(2, 5))), Inertia(q(5, 2)));
    let converted: InverseInertia = Inertia(q(8, 1)).into();
    assert_eq!(converted, InverseInertia(q(1, 8)));
}

#[test]
fn shifted_by_the_parallel_axis_theorem() {
    // 1/2 + (1/4 + 1/9) * 3/2 = 25/24
    let inertia = Inertia(q(1, 2));
    let offset = Vector2::new(q(1, 2), q(1, 3));
    assert_eq!(inertia.shifted(q(3, 2), offset), q(25, 24));
}

#[test]
fn shifted_from_zero_is_mass_times_squared_distance() {
    let offset = Vector2::new(q(3, 1), q(4, 1));
    assert_eq!(Inertia::zero().shifted(q(2, 1), offset), q(50, 1));
    let mass = q(5, 7);
    let offset = Vector2::new(q(-2, 3), q(1, 5));
    assert_eq!(Inertia::zero().shifted(mass, offset), mass.mul(offset.length_squared()));
}

#[test]
fn shifted_leaves_inertia_alone_without_positive_finite_mass() {
    let inertia = Inertia(q(9, 4));
    let offset = Vector2::new(q(3, 1), q(4, 1));
    for mass in [
        Scalar::zero(),
        q(-1, 2),
        q(-5, 1),
        Scalar::infinity(),
        Scalar::neg_infinity(),
        Scalar::nan(),
    ] {
        assert_eq!(inertia.shifted(mass, offset), q(9, 4));
    }
    assert_eq!(inertia.shifted(q(1, 1), offset), q(109, 4));
}

#[test]
fn shifted_with_zero_offset_changes_nothing() {
    let inertia = Inertia(q(9, 4));
    assert_eq!(inertia.shifted(q(3, 1), Vector2::zero()), q(9, 4));
}

#[test]
fn collider_zero_has_infinite_inverse_mass() {
    let zero = ColliderMassProperties::zero();
    assert_eq!(zero.mass(), Scalar::zero());
    assert_eq!(zero.inverse_mass(), Scalar::infinity());
    assert_eq!(zero.inertia(), Scalar::zero());
    assert_eq!(zero.inverse_inertia(), Scalar::zero());
    assert_eq!(zero.center_of_mass(), Vector2::zero());
}

#[test]
fn collider_takes_what_the_geometry_yields() {
    let shape = disc_like_shape();
    let props = ColliderMassProperties::new(&shape, Scalar::one());
    assert_eq!(props.mass(), q(3, 4));
    assert_eq!(props.inverse_mass(), q(4, 3));
    assert_eq!(props.inertia(), q(3, 32));
    assert_eq!(props.inverse_inertia(), q(32, 3));
    assert_eq!(props.center_of_mass(), Vector2::new(q(1, 2), q(-1, 3)));
}

#[test]
fn collider_keeps_the_inverse_mass_of_the_geometry() {
    let mut shape = disc_like_shape();
    shape.inverse_mass = q(5, 4);
    let props = ColliderMassProperties::new(&shape, q(2, 1));
    assert_eq!(props.mass(), q(3, 4));
    assert_eq!(props.inverse_mass(), q(5, 4));
}

#[test]
fn zero_density_gives_zero_whatever_the_shape() {
    let shape = disc_like_shape();
    assert_eq!(
        ColliderMassProperties::new(&shape, Scalar::zero()),
        ColliderMassProperties::zero()
    );
    let other = ShapeMassProperties {
        mass: q(100, 1),
        inverse_mass: Scalar::nan(),
        principal_inertia: Scalar::infinity(),
        local_center_of_mass: Vector2::new(q(9, 1), q(9, 1)),
    };
    assert_eq!(
        ColliderMassProperties::new(&other, ColliderDensity::zero().0),
        ColliderMassProperties::zero()
    );
}

#[test]
fn bundle_matches_collider_field_by_field() {
    let shape = ShapeMassProperties {
        mass: q(1, 1),
        inverse_mass: q(1, 1),
        principal_inertia: q(1, 6),
        local_center_of_mass: Vector2::zero(),
    };
    let density = ColliderDensity::default().0;
    let bundle = MassPropertiesBundle::new_computed(&shape, density);
    let props = ColliderMassProperties::new(&shape, density);
    assert_eq!(bundle.mass.0, props.mass());
    assert_eq!(bundle.inverse_mass.0, props.inverse_mass());
    assert_eq!(bundle.inertia.0, props.inertia());
    assert_eq!(bundle.inverse_inertia.0, props.inverse_inertia());
    assert_eq!(bundle.center_of_mass.0, props.center_of_mass());
    assert_eq!(bundle.inverse_inertia.0, q(6, 1));

    let bundle = MassPropertiesBundle::new_computed(&disc_like_shape(), Scalar::zero());
    let props = ColliderMassProperties::zero();
    assert_eq!(bundle.mass.0, props.mass());
    assert_eq!(bundle.inverse_mass.0, Scalar::infinity());
    assert_eq!(bundle.inertia.0, props.inertia());
    assert_eq!(bundle.inverse_inertia.0, props.inverse_inertia());
    assert_eq!(bundle.center_of_mass.0, props.center_of_mass());
}

#[test]
fn zero_density_collider_does_not_change_the_total() {
    let shape = disc_like_shape();
    let massless = ColliderMassProperties::new(&shape, Scalar::zero());
    let massive = ColliderMassProperties::new(&shape, Scalar::one());
    let total_mass = massless.mass().add(massive.mass());
    assert_eq!(total_mass, q(3, 4));
    let total_mass = massive.mass().add(massless.mass());
    assert_eq!(total_mass, massive.mass());
    let total_inertia = massless.inertia().add(massive.inertia());
    assert_eq!(total_inertia, massive.inertia());
}
