use mass_props::matrix::Matrix3 as Tensor;
use mass_props::scalar::Scalar;
use mass_props::spatial::{ColliderMassProperties, ShapeMassProperties};
use mass_props::vector::Vector3;
use parry3d::na::Matrix3;
use parry3d::shape::{Ball, Shape};

fn single(x: f32) -> Scalar {
    Scalar::from_ieee_single(x.to_bits())
}

#[test]
fn ball_in_space() {
    let ball = Ball::new(0.5);
    let raw = ball.mass_properties(1.0);
    let inertia = raw.reconstruct_inertia_matrix();
    let inverse = raw.reconstruct_inverse_inertia_matrix();
    let matrix = |m: &Matrix3<f32>| {
        Tensor::from_cols(
            Vector3::new(single(m[(0, 0)]), single(m[(1, 0)]), single(m[(2, 0)])),
            Vector3::new(single(m[(0, 1)]), single(m[(1, 1)]), single(m[(2, 1)])),
            Vector3::new(single(m[(0, 2)]), single(m[(1, 2)]), single(m[(2, 2)])),
        )
    };
    let shape = ShapeMassProperties {
        mass: single(raw.mass()),
        inverse_mass: single(raw.inv_mass),
        inertia: matrix(&inertia),
        inverse_inertia: matrix(&inverse),
        local_center_of_mass: Vector3::new(
            single(raw.local_com.x),
            single(raw.local_com.y),
            single(raw.local_com.z),
        ),
    };
    let props = ColliderMassProperties::new(&shape, single(1.0));
    assert!(props.mass().is_positive() && props.mass().is_finite());
    assert_eq!(props.inverse_mass(), single(raw.inv_mass));
    assert_eq!(props.center_of_mass(), Vector3::zero());
    assert!(props.inertia().x_axis.x.is_positive());
    assert_eq!(props.inertia().x_axis.x, props.inertia().y_axis.y);
    assert_eq!(props.inertia().x_axis.y, Scalar::zero());
    assert_eq!(props.inverse_inertia(), shape.inverse_inertia);
    assert_eq!(ColliderMassProperties::new(&shape, single(0.0)), ColliderMassProperties::zero());
}
