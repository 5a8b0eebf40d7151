use glam::{Quat, Vec3};
use lumina::Transform;

#[test]
fn default_transform() {
    let t = Transform::default();
    assert_eq!(t.position, Vec3::ZERO);
    assert_eq!(t.rotation, Quat::IDENTITY);
    assert_eq!(t.scale, Vec3::ONE);
}

#[test]
fn constructors() {
    let p = Vec3::new(1.0, 2.0, 3.0);
    let t = Transform::from_position(p);
    assert_eq!(t.position, p);
    assert_eq!(t.rotation, Quat::IDENTITY);
    assert_eq!(t.scale, Vec3::ONE);
    let q = Quat::from_rotation_y(0.5);
    let t2 = Transform::from_pos_rot(p, q);
    assert_eq!(t2.position, p);
    assert_eq!(t2.rotation, q);
    assert_eq!(t2.scale, Vec3::ONE);
}

#[test]
fn axes_of_identity() {
    let t = Transform::default();
    assert_eq!(t.right(), Vec3::X);
    assert_eq!(t.up(), Vec3::Y);
    assert_eq!(t.forward(), -Vec3::Z);
}

#[test]
fn matrix_is_trs() {
    let t = Transform {
        position: Vec3::new(1.0, 0.0, -2.0),
        rotation: Quat::from_rotation_y(1.0),
        scale: Vec3::new(2.0, 2.0, 2.0),
    };
    let m = glam::Mat4::from_translation(t.position)
        * glam::Mat4::from_quat(t.rotation)
        * glam::Mat4::from_scale(t.scale);
    assert_eq!(t.to_matrix(), m);
}

#[test]
fn translate_local_moves_along_rotated_axes() {
    let mut t = Transform::from_pos_rot(Vec3::new(1.0, 1.0, 1.0), Quat::IDENTITY);
    t.translate_local(Vec3::new(0.0, 2.0, 0.0));
    assert_eq!(t.position, Vec3::new(1.0, 3.0, 1.0));
    assert_eq!(t.rotation, Quat::IDENTITY);
    let q = Quat::from_rotation_y(0.3);
    let mut u = Transform::from_pos_rot(Vec3::ZERO, q);
    u.translate_local(Vec3::X);
    assert_eq!(u.position, q * Vec3::X);
    assert_eq!(u.rotation, q);
}
