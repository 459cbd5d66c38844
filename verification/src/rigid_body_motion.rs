//! The motion of the rigid body that carries the wings.
use vstd::prelude::*;

use stormath::spatial_vector::SpatialVector;

verus! {

/// How the three angles of a rotation vector are applied.
#[derive(Clone, Copy, Debug, PartialEq, Eq, Structural)]
pub enum RotationType {
    /// Rotation around the fixed x-axis, then the fixed y-axis, then the fixed z-axis.
    XYZ,
    /// Yaw around the z-axis, then pitch around the new y-axis, then roll around the new x-axis.
    YawPitchRoll,
}

/// Translation, rotation and velocities of a rigid body.
#[derive(Clone, Copy, Debug)]
pub struct RigidBodyMotion {
    /// Translation of the body.
    pub translation: SpatialVector,
    /// Rotation of the body, as angles around the x, y and z axes.
    pub rotation: SpatialVector,
    /// Linear velocity of the body.
    pub velocity_linear: SpatialVector,
    /// Angular velocity of the body.
    pub velocity_angular: SpatialVector,
    /// How the rotation angles are applied.
    pub rotation_type: RotationType,
}

/// Whether `moved` is a point that `stormath`'s `RigidBodyMotion::transform_point` gives for
/// `point` under `motion`. The rotation goes through sines and cosines, whose values are not
/// fixed from one call to the next, so this is a relation: it does not say that a point is
/// moved to one place only.
pub uninterp spec fn moves_point_to(motion: RigidBodyMotion, point: SpatialVector, moved: SpatialVector) -> bool;

/// Whether `turned` is a vector that `stormath`'s `RigidBodyMotion::transform_vector` gives for
/// `vector` under `motion`. As for points, this is a relation.
pub uninterp spec fn turns_vector_to(motion: RigidBodyMotion, vector: SpatialVector, turned: SpatialVector) -> bool;

impl RigidBodyMotion {
    /// Calls `stormath::rigid_body_motion::RigidBodyMotion::transform_point` on a motion with
    /// the same fields. That method rotates the point by the rotation of the motion and adds the
    /// translation. All that is claimed is that the result is one that this call gives for this
    /// motion and this point.
    #[verifier::external_body]
    pub(crate) fn transform_point(&self, point: SpatialVector) -> (result: SpatialVector)
        ensures
            moves_point_to(*self, point, result),
    {
        let motion = stormath::rigid_body_motion::RigidBodyMotion {
            translation: self.translation,
            rotation: self.rotation,
            velocity_linear: self.velocity_linear,
            velocity_angular: self.velocity_angular,
            rotation_type: match self.rotation_type {
                RotationType::XYZ => stormath::spatial_vector::transformations::RotationType::XYZ,
                RotationType::YawPitchRoll => stormath::spatial_vector::transformations::RotationType::YawPitchRoll,
            },
        };
        motion.transform_point(point)
    }

    /// Calls `stormath::rigid_body_motion::RigidBodyMotion::transform_vector` on a motion with
    /// the same fields. That method rotates the vector by the rotation of the motion and applies
    /// no translation. All that is claimed is that the result is one that this call gives for
    /// this motion and this vector.
    #[verifier::external_body]
    pub(crate) fn transform_vector(&self, vector: SpatialVector) -> (result: SpatialVector)
        ensures
            turns_vector_to(*self, vector, result),
    {
        let motion = stormath::rigid_body_motion::RigidBodyMotion {
            translation: self.translation,
            rotation: self.rotation,
            velocity_linear: self.velocity_linear,
            velocity_angular: self.velocity_angular,
            rotation_type: match self.rotation_type {
                RotationType::XYZ => stormath::spatial_vector::transformations::RotationType::XYZ,
                RotationType::YawPitchRoll => stormath::spatial_vector::transformations::RotationType::YawPitchRoll,
            },
        };
        motion.transform_vector(vector)
    }
}

} // verus!
