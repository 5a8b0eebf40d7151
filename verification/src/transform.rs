//! The spatial description every renderable entity carries: translation,
//! rotation (a quaternion) and scale, as `glam` values.
//!
//! The vector and matrix arithmetic is glam's. Its results are floating
//! point, computed by code that differs between targets (glam's scalar
//! `Quat::mul_vec3` and its SSE2 one use different formulas, so the same
//! inputs can round differently), so no contract here names them: the glam
//! items below promise nothing of the values they return, and the functions
//! built on them state only which fields they carry through unchanged.

use glam::{Mat4, Quat, Vec3};
use vstd::prelude::*;

verus! {

/// `glam::Vec3`, carried through opaquely.
#[verifier::external_type_specification]
#[verifier::external_body]
pub struct ExVec3(Vec3);

/// `glam::Quat`, carried through opaquely.
#[verifier::external_type_specification]
#[verifier::external_body]
pub struct ExQuat(Quat);

/// `glam::Mat4`, carried through opaquely.
#[verifier::external_type_specification]
#[verifier::external_body]
pub struct ExMat4(Mat4);

/// `glam::Vec3::ZERO`. Nothing is stated of the value.
#[verifier::external_body]
fn vec3_zero() -> Vec3 {
    Vec3::ZERO
}

/// `glam::Vec3::ONE`. Nothing is stated of the value.
#[verifier::external_body]
fn vec3_one() -> Vec3 {
    Vec3::ONE
}

/// `glam::Vec3::X`. Nothing is stated of the value.
#[verifier::external_body]
fn vec3_unit_x() -> Vec3 {
    Vec3::X
}

/// `glam::Vec3::Y`. Nothing is stated of the value.
#[verifier::external_body]
fn vec3_unit_y() -> Vec3 {
    Vec3::Y
}

/// `glam::Vec3::Z`. Nothing is stated of the value.
#[verifier::external_body]
fn vec3_unit_z() -> Vec3 {
    Vec3::Z
}

/// `glam::Quat::IDENTITY`. Nothing is stated of the value.
#[verifier::external_body]
fn quat_identity() -> Quat {
    Quat::IDENTITY
}

/// `<Vec3 as Neg>::neg`. Nothing is stated of the value.
#[verifier::external_body]
fn vec3_neg(v: Vec3) -> Vec3 {
    -v
}

/// `<Vec3 as Add>::add`. Nothing is stated of the value.
#[verifier::external_body]
fn vec3_add(a: Vec3, b: Vec3) -> Vec3 {
    a + b
}

/// `<Quat as Mul<Vec3>>::mul`: `v` rotated by `q`. Nothing is stated of the
/// value.
#[verifier::external_body]
fn quat_rotate(q: Quat, v: Vec3) -> Vec3 {
    q * v
}

/// `glam::Mat4::from_translation`. Nothing is stated of the value.
#[verifier::external_body]
fn mat4_from_translation(v: Vec3) -> Mat4 {
    Mat4::from_translation(v)
}

/// `glam::Mat4::from_quat`. Nothing is stated of the value.
#[verifier::external_body]
fn mat4_from_quat(q: Quat) -> Mat4 {
    Mat4::from_quat(q)
}

/// `glam::Mat4::from_scale`. Nothing is stated of the value.
#[verifier::external_body]
fn mat4_from_scale(v: Vec3) -> Mat4 {
    Mat4::from_scale(v)
}

/// `<Mat4 as Mul>::mul`. Nothing is stated of the value.
#[verifier::external_body]
fn mat4_mul(a: Mat4, b: Mat4) -> Mat4 {
    a * b
}

#[derive(Clone, Copy, Debug)]
pub struct Transform {
    pub position: Vec3,
    pub rotation: Quat,
    pub scale: Vec3,
}

impl Default for Transform {
    /// At the origin, unrotated (glam's identity), unit scale (glam's ONE).
    fn default() -> Transform {
        Transform { position: vec3_zero(), rotation: quat_identity(), scale: vec3_one() }
    }
}

impl Transform {
    /// The default transform moved to `position`.
    pub fn from_position(position: Vec3) -> (t: Transform)
        ensures
            t.position == position,
    {
        Transform { position, ..Transform::default() }
    }

    /// The default transform moved to `position` and turned by `rotation`.
    pub fn from_pos_rot(position: Vec3, rotation: Quat) -> (t: Transform)
        ensures
            t.position == position,
            t.rotation == rotation,
    {
        Transform { position, rotation, ..Transform::default() }
    }

    /// The model matrix: translation * rotation * scale. The matrix is glam's
    /// floating-point product; no clause states its entries.
    pub fn to_matrix(&self) -> Mat4 {
        mat4_mul(
            mat4_mul(mat4_from_translation(self.position), mat4_from_quat(self.rotation)),
            mat4_from_scale(self.scale),
        )
    }

    /// World-space right vector: +X rotated. No clause states the vector: it
    /// is glam's floating-point rotation.
    pub fn right(&self) -> Vec3 {
        quat_rotate(self.rotation, vec3_unit_x())
    }

    /// World-space up vector: +Y rotated. No clause states the vector: it is
    /// glam's floating-point rotation.
    pub fn up(&self) -> Vec3 {
        quat_rotate(self.rotation, vec3_unit_y())
    }

    /// World-space forward vector: -Z rotated. No clause states the vector:
    /// it is glam's floating-point rotation.
    pub fn forward(&self) -> Vec3 {
        quat_rotate(self.rotation, vec3_neg(vec3_unit_z()))
    }

    /// Move along the local axes: the offset is rotated, then added to the
    /// position. Rotation and scale stay as they are; no clause states the
    /// new position, which is glam's floating-point sum.
    pub fn translate_local(&mut self, offset: Vec3)
        ensures
            final(self).rotation == old(self).rotation,
            final(self).scale == old(self).scale,
    {
        self.position = vec3_add(self.position, quat_rotate(self.rotation, offset));
    }
}

} // verus!
