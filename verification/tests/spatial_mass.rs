use mass_props::mass::{InverseMass, Mass};
use mass_props::matrix::Matrix3;
use mass_props::quaternion::Quaternion;
use mass_props::scalar::Scalar;
use mass_props::spatial::{
    inverted_tensor, rotated_tensor, CenterOfMass, ColliderMassProperties, Inertia, InverseInertia,
    MassPropertiesBundle, Rotation, ShapeMassProperties,
};
use mass_props::vector::Vector3;

fn q(n: i64, d: i64) -> Scalar {
    Scalar::new(n, d)
}

fn v(x: i64, y: i64, z: i64) -> Vector3 {
    Vector3::new(q(x, 1), q(y, 1), q(z, 1))
}

fn diagonal(a: Scalar, b: Scalar, c: Scalar) -> Matrix3 {
    let o = Scalar::zero();
    Matrix3::from_cols(Vector3::new(a, o, o), Vector3::new(o, b, o), Vector3::new(o, o, c))
}

fn about_z() -> Rotation {
    // cos = 7/25, sin = 24/25
    Rotation(Quaternion::new(Scalar::zero(), Scalar::zero(), q(3, 5), q(4, 5)))
}

fn half_turns() -> Rotation {
    Rotation(Quaternion::new(q(1, 2), q(1, 2), q(1, 2), q(1, 2)))
}

fn sample_tensor() -> Matrix3 {
    Matrix3::from_cols(
        Vector3::new(q(4, 1), q(1, 2), q(-1, 3)),
        Vector3::new(q(1, 2), q(5, 1), q(2, 7)),
        Vector3::new(q(-1, 3), q(2, 7), q(6, 1)),
    )
}

fn box_shape() -> ShapeMassProperties {
    ShapeMassProperties {
        mass: q(8, 1),
        inverse_mass: q(1, 8),
        inertia: diagonal(q(16, 3), q(16, 3), q(16, 3)),
        inverse_inertia: diagonal(q(3, 16), q(3, 16), q(3, 16)),
        local_center_of_mass: Vector3::new(q(1, 2), q(0, 1), q(-1, 4)),
    }
}

#[test]
fn spatial_zero_values_and_defaults() {
    assert_eq!(Inertia::zero().0, Matrix3::zero());
    assert_eq!(InverseInertia::zero().0, Matrix3::zero());
    assert_eq!(CenterOfMass::zero().0, Vector3::zero());
    assert_eq!(Inertia::default(), Inertia::zero());
    assert_eq!(InverseInertia::default(), InverseInertia::zero());
    assert_eq!(CenterOfMass::default(), CenterOfMass::zero());
    assert_eq!(ColliderMassProperties::default(), ColliderMassProperties::zero());
    let bundle = MassPropertiesBundle::default();
    assert_eq!(bundle.mass, Mass::zero());
    assert_eq!(bundle.inverse_mass, InverseMass::zero());
    assert_eq!(bundle.inertia, Inertia::zero());
    assert_eq!(bundle.inverse_inertia, InverseInertia::zero());
    assert_eq!(bundle.center_of_mass, CenterOfMass::zero());
    assert_eq!(Matrix3::identity(), diagonal(Scalar::one(), Scalar::one(), Scalar::one()));
    assert!(Matrix3::zero().is_zero());
    assert!(!Matrix3::identity().is_zero());
}

#[test]
fn rotation_matrix_of_a_quaternion() {
    let m = Matrix3::from_quat(&about_z().0);
    let expected = Matrix3::from_cols(
        Vector3::new(q(7, 25), q(24, 25), q(0, 1)),
        Vector3::new(q(-24, 25), q(7, 25), q(0, 1)),
        Vector3::new(q(0, 1), q(0, 1), q(1, 1)),
    );
    assert_eq!(m, expected);
    assert_eq!(Matrix3::from_quat(&Quaternion::identity()), Matrix3::identity());
    assert_eq!(m.mul_mat3(&m.transpose()), Matrix3::identity());
    assert_eq!(Matrix3::from_quat(&about_z().0.conjugate()), m.transpose());
    assert_eq!(about_z().0.length_squared(), Scalar::one());
    assert_eq!(half_turns().0.length_squared(), Scalar::one());
}

#[test]
fn rotated_is_r_times_tensor_times_r_transposed() {
    let inertia = Inertia(diagonal(q(1, 1), q(2, 1), q(3, 1)));
    let rotated = inertia.rotated(&about_z());
    let expected = Matrix3::from_cols(
        Vector3::new(q(1201, 625), q(-168, 625), q(0, 1)),
        Vector3::new(q(-168, 625), q(674, 625), q(0, 1)),
        Vector3::new(q(0, 1), q(0, 1), q(3, 1)),
    );
    assert_eq!(rotated.0, expected);
    let inverse = InverseInertia(diagonal(q(1, 1), q(2, 1), q(3, 1)));
    assert_eq!(inverse.rotated(&about_z()).0, expected);
    assert_eq!(rotated_tensor(&inertia.0, &about_z().0), expected);
}

#[test]
fn rotated_by_the_identity_changes_nothing() {
    let inertia = Inertia(sample_tensor());
    assert_eq!(inertia.rotated(&Rotation(Quaternion::identity())), inertia);
}

#[test]
fn rotating_there_and_back_gives_the_tensor_back() {
    for rot in [about_z(), half_turns(), Rotation(Quaternion::new(q(2, 7), q(3, 7), q(6, 7), q(0, 1)))] {
        assert_eq!(rot.0.length_squared(), Scalar::one());
        let inertia = Inertia(sample_tensor());
        let there = inertia.rotated(&rot);
        assert_ne!(there, inertia);
        assert_eq!(there.rotated(&rot.inverse()), inertia);
        let inverse = InverseInertia(sample_tensor());
        assert_eq!(inverse.rotated(&rot).rotated(&rot.inverse()), inverse);
    }
}

#[test]
fn rotation_inverse_is_the_conjugate() {
    let rot = Rotation(Quaternion::new(q(1, 2), q(-1, 2), q(1, 2), q(1, 2)));
    assert_eq!(rot.inverse().0, Quaternion::new(q(-1, 2), q(1, 2), q(-1, 2), q(1, 2)));
    assert_eq!(rot.inverse().inverse(), rot);
}

#[test]
fn inverse_of_zero_inertia_is_zero() {
    assert_eq!(Inertia::zero().inverse(), InverseInertia::zero());
    assert_eq!(InverseInertia::zero().inverse(), Inertia::zero());
    assert_eq!(inverted_tensor(&Matrix3::zero()), Matrix3::zero());
}

#[test]
fn inverse_of_a_diagonal_tensor() {
    let inertia = Inertia(diagonal(q(2, 1), q(4, 1), q(5, 1)));
    assert_eq!(inertia.inverse().0, diagonal(q(1, 2), q(1, 4), q(1, 5)));
    assert_eq!(inertia.inverse().inverse(), inertia);
}

#[test]
fn inverse_of_a_full_tensor() {
    let tensor = sample_tensor();
    let inverse = Inertia(tensor).inverse();
    assert_eq!(tensor.mul_mat3(&inverse.0), Matrix3::identity());
    assert_eq!(inverse.0.mul_mat3(&tensor), Matrix3::identity());
    assert_eq!(inverse.inverse(), Inertia(tensor));
    let m = Matrix3::from_cols(v(1, 0, 5), v(2, 1, 6), v(3, 4, 0));
    let expected = Matrix3::from_cols(v(-24, 20, -5), v(18, -15, 4), v(5, -4, 1));
    assert_eq!(m.determinant(), Scalar::one());
    assert_eq!(m.inverse(), expected);
}

#[test]
fn inverse_of_a_singular_tensor_is_not_finite() {
    let singular = Matrix3::from_cols(v(1, 2, 3), v(2, 4, 6), v(0, 0, 1));
    assert_eq!(singular.determinant(), Scalar::zero());
    let inverse = Inertia(singular).inverse().0;
    assert!(!inverse.x_axis.x.is_finite());
    assert!(!inverse.z_axis.z.is_finite());
}

#[test]
fn spatial_conversion_inverts() {
    let inertia = Inertia(diagonal(q(2, 1), q(4, 1), q(5, 1)));
    let inverse = InverseInertia::from(inertia);
    assert_eq!(inverse, inertia.inverse());
    assert_eq!(Inertia::from(inverse), inertia);
}

#[test]
fn spatial_shifted() {
    // (14 * Id + o o^T) * 2 for o = (1, 2, 3)
    let expected = Matrix3::from_cols(v(30, 4, 6), v(4, 36, 12), v(6, 12, 46));
    assert_eq!(Inertia::zero().shifted(q(2, 1), v(1, 2, 3)), expected);
    let inertia = Inertia(diagonal(q(1, 2), q(1, 3), q(1, 4)));
    let expected = Matrix3::from_cols(
        Vector3::new(q(61, 2), q(4, 1), q(6, 1)),
        Vector3::new(q(4, 1), q(109, 3), q(12, 1)),
        Vector3::new(q(6, 1), q(12, 1), q(185, 4)),
    );
    assert_eq!(inertia.shifted(q(2, 1), v(1, 2, 3)), expected);
}

#[test]
fn spatial_shifted_leaves_inertia_alone_without_positive_finite_mass() {
    let inertia = Inertia(sample_tensor());
    for mass in [
        Scalar::zero(),
        q(-3, 2),
        Scalar::infinity(),
        Scalar::neg_infinity(),
        Scalar::nan(),
    ] {
        assert_eq!(inertia.shifted(mass, v(1, 2, 3)), sample_tensor());
    }
    assert_ne!(inertia.shifted(q(1, 1), v(1, 2, 3)), sample_tensor());
}

#[test]
fn spatial_collider_takes_what_the_geometry_yields() {
    let shape = box_shape();
    let props = ColliderMassProperties::new(&shape, Scalar::one());
    assert_eq!(props.mass(), q(8, 1));
    assert_eq!(props.inverse_mass(), q(1, 8));
    assert_eq!(props.inertia(), shape.inertia);
    assert_eq!(props.inverse_inertia(), shape.inverse_inertia);
    assert_eq!(props.center_of_mass(), shape.local_center_of_mass);
}

#[test]
fn spatial_zero_density_gives_zero_whatever_the_shape() {
    let props = ColliderMassProperties::new(&box_shape(), Scalar::zero());
    assert_eq!(props, ColliderMassProperties::zero());
    assert_eq!(props.mass(), Scalar::zero());
    assert_eq!(props.inverse_mass(), Scalar::infinity());
    assert_eq!(props.inertia(), Matrix3::zero());
    assert_eq!(props.inverse_inertia(), Matrix3::zero());
    assert_eq!(props.center_of_mass(), Vector3::zero());
}

#[test]
fn spatial_bundle_matches_collider_field_by_field() {
    let shape = box_shape();
    let bundle = MassPropertiesBundle::new_computed(&shape, Scalar::one());
    let props = ColliderMassProperties::new(&shape, Scalar::one());
    assert_eq!(bundle.mass.0, props.mass());
    assert_eq!(bundle.inverse_mass.0, props.inverse_mass());
    assert_eq!(bundle.inertia.0, props.inertia());
    assert_eq!(bundle.inverse_inertia.0, props.inverse_inertia());
    assert_eq!(bundle.center_of_mass.0, props.center_of_mass());
    assert_eq!(bundle.mass.0, q(8, 1));
}

#[test]
fn vector_and_matrix_products() {
    let a = v(1, 2, 3);
    let b = v(4, 5, 6);
    assert_eq!(a.dot(&b), q(32, 1));
    assert_eq!(a.cross(&b), v(-3, 6, -3));
    assert_eq!(a.length_squared(), q(14, 1));
    assert_eq!(a.scaled(q(1, 2)), Vector3::new(q(1, 2), q(1, 1), q(3, 2)));
    assert_eq!(a.plus(&b), v(5, 7, 9));
    let m = Matrix3::from_cols(v(1, 0, 5), v(2, 1, 6), v(3, 4, 0));
    assert_eq!(m.mul_vec3(&a), v(14, 14, 17));
    assert_eq!(m.transpose(), Matrix3::from_cols(v(1, 2, 3), v(0, 1, 4), v(5, 6, 0)));
    assert_eq!(m.mul_mat3(&Matrix3::identity()), m);
    assert_eq!(m.add_mat3(&m), m.mul_scalar(q(2, 1)));
    assert_eq!(Matrix3::outer_square(&a), Matrix3::from_cols(v(1, 2, 3), v(2, 4, 6), v(3, 6, 9)));
    assert_eq!(
        Matrix3::from_diagonal_element(q(7, 1)),
        diagonal(q(7, 1), q(7, 1), q(7, 1))
    );
}
