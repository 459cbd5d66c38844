//! The functions that bring the world-frame quantities of a line force model up to date.
use vstd::prelude::*;

use stormath::spatial_vector::SpatialVector;

use crate::line_force_model::{ctrl_points_of, lines_moved_by, vectors_turned_by, LineForceModel};
use crate::rigid_body_motion::{moves_point_to, turns_vector_to};
use crate::rigid_body_motion::RigidBodyMotion;
use crate::span_line::SpanLine;
use crate::vector::copy_vectors;
use crate::wings::{span_points_of, wing_span_points, wings_well_formed};

verus! {

impl LineForceModel {
    /// Recomputes the span lines in the world frame: both end points of each span line in the
    /// body frame are moved by the motion of the body.
    pub fn update_global_span_lines(&mut self)
        ensures
            lines_moved_by(
                old(self).rigid_body_motion,
                old(self).span_lines_local@,
                final(self).span_lines_global@,
            ),
            *final(self) == (LineForceModel {
                span_lines_global: final(self).span_lines_global,
                ..*old(self)
            }),
    {
        let n = self.span_lines_local.len();
        let mut lines: Vec<SpanLine> = Vec::new();
        let mut i: usize = 0;
        while i < n
            invariant
                n == self.span_lines_local@.len(),
                i <= n,
                lines@.len() == i,
                forall|k: int|
                    0 <= k < i ==> moves_point_to(
                        self.rigid_body_motion,
                        self.span_lines_local@[k].start_point,
                        (#[trigger] lines@[k]).start_point,
                    ) && moves_point_to(
                        self.rigid_body_motion,
                        self.span_lines_local@[k].end_point,
                        lines@[k].end_point,
                    ),
            decreases n - i,
        {
            let start_point = self.rigid_body_motion.transform_point(self.span_lines_local[i].start_point);
            let end_point = self.rigid_body_motion.transform_point(self.span_lines_local[i].end_point);
            lines.push(SpanLine { start_point, end_point });
            i += 1;
        }
        self.span_lines_global = lines;
    }

    /// Recomputes the control points in the world frame from the span lines in the world frame.
    pub fn update_ctrl_points(&mut self)
        ensures
            final(self).ctrl_points_global@ == ctrl_points_of(old(self).span_lines_global@),
            *final(self) == (LineForceModel {
                ctrl_points_global: final(self).ctrl_points_global,
                ..*old(self)
            }),
    {
        let n = self.span_lines_global.len();
        let mut points: Vec<SpatialVector> = Vec::new();
        let mut i: usize = 0;
        while i < n
            invariant
                n == self.span_lines_global@.len(),
                i <= n,
                points@.len() == i,
                forall|k: int| 0 <= k < i ==> points@[k] == self.span_lines_global@[k].spec_ctrl_point(),
            decreases n - i,
        {
            let point = self.span_lines_global[i].ctrl_point();
            points.push(point);
            i += 1;
        }
        assert(points@ =~= ctrl_points_of(self.span_lines_global@));
        self.ctrl_points_global = points;
    }

    /// Recomputes the span points in the world frame: for each wing the start point of each of
    /// its span lines, followed by the end point of its last span line.
    pub fn update_global_span_points(&mut self)
        requires
            wings_well_formed(old(self).wing_indices@, old(self).span_lines_global@.len()),
        ensures
            final(self).span_points_global@ == span_points_of(
                old(self).span_lines_global@,
                old(self).wing_indices@,
            ),
            *final(self) == (LineForceModel {
                span_points_global: final(self).span_points_global,
                ..*old(self)
            }),
    {
        let nr_wings = self.wing_indices.len();
        let mut span_points: Vec<SpatialVector> = Vec::new();
        let mut wing_index: usize = 0;
        while wing_index < nr_wings
            invariant
                nr_wings == self.wing_indices@.len(),
                wing_index <= nr_wings,
                wings_well_formed(self.wing_indices@, self.span_lines_global@.len()),
                span_points@ == span_points_of(
                    self.span_lines_global@,
                    self.wing_indices@.take(wing_index as int),
                ),
            decreases nr_wings - wing_index,
        {
            let start = self.wing_indices[wing_index].start;
            let end = self.wing_indices[wing_index].end;
            let ghost wing = self.wing_indices@[wing_index as int];
            let ghost before = span_points@;
            let ghost of_wing = wing_span_points(self.span_lines_global@, wing);
            let mut i: usize = start;
            while i < end
                invariant
                    start <= i <= end,
                    start == wing.start,
                    end == wing.end,
                    start < end <= self.span_lines_global@.len(),
                    of_wing == wing_span_points(self.span_lines_global@, wing),
                    span_points@ == before + of_wing.take(i - start),
                decreases end - i,
            {
                span_points.push(self.span_lines_global[i].start_point);
                assert(span_points@ =~= before + of_wing.take(i + 1 - start));
                i += 1;
            }
            span_points.push(self.span_lines_global[end - 1].end_point);
            proof {
                let upto = self.wing_indices@.take(wing_index as int + 1);
                assert(upto.drop_last() =~= self.wing_indices@.take(wing_index as int));
                assert(upto.last() == wing);
                assert(span_points@ =~= before + of_wing);
            }
            wing_index += 1;
        }
        assert(self.wing_indices@.take(nr_wings as int) =~= self.wing_indices@);
        self.span_points_global = span_points;
    }

    /// Recomputes the chord vectors in the world frame from those in the body frame as the
    /// wings stand now: each is turned by the rotation of the body.
    fn update_global_chord_vectors(&mut self)
        ensures
            vectors_turned_by(
                old(self).rigid_body_motion,
                old(self).chord_vectors_local@,
                final(self).chord_vectors_global@,
            ),
            *final(self) == (LineForceModel {
                chord_vectors_global: final(self).chord_vectors_global,
                ..*old(self)
            }),
    {
        let n = self.chord_vectors_local.len();
        let mut global: Vec<SpatialVector> = Vec::new();
        let mut i: usize = 0;
        while i < n
            invariant
                n == self.chord_vectors_local@.len(),
                i <= n,
                global@.len() == i,
                forall|k: int|
                    0 <= k < i ==> turns_vector_to(
                        self.rigid_body_motion,
                        self.chord_vectors_local@[k],
                        #[trigger] global@[k],
                    ),
            decreases n - i,
        {
            let chord = self.rigid_body_motion.transform_vector(self.chord_vectors_local[i]);
            global.push(chord);
            i += 1;
        }
        self.chord_vectors_global = global;
    }

    /// Takes the chord vectors of the wings as they stand after each wing has been turned about
    /// its span axis by its local wing angle, one for each span line, stores them as the chord
    /// vectors in the body frame, and recomputes the chord vectors in the world frame from them:
    /// each is what the motion of the body makes of the turned one.
    ///
    /// The turn itself is made by the caller. The chord vectors of the wings that have not been
    /// turned stay as they are.
    pub fn update_chord_vectors(&mut self, turned_chord_vectors: Vec<SpatialVector>)
        requires
            turned_chord_vectors@.len() == old(self).span_lines_local@.len(),
        ensures
            final(self).chord_vectors_local@ == turned_chord_vectors@,
            vectors_turned_by(
                old(self).rigid_body_motion,
                turned_chord_vectors@,
                final(self).chord_vectors_global@,
            ),
            *final(self) == (LineForceModel {
                chord_vectors_local: final(self).chord_vectors_local,
                chord_vectors_global: final(self).chord_vectors_global,
                ..*old(self)
            }),
    {
        self.chord_vectors_local = turned_chord_vectors;
        self.update_global_chord_vectors();
    }

    /// Brings every world-frame quantity up to date with the body-fixed description and the
    /// motion of the body: chord vectors, span lines, span points and control points.
    pub fn update_global_data_representations(&mut self)
        requires
            old(self).well_formed(),
        ensures
            final(self).well_formed(),
            final(self).global_data_is_current(),
            final(self).same_wings_as(old(self)),
            final(self).chord_vectors_local@ == old(self).chord_vectors_local@,
            final(self).rigid_body_motion == old(self).rigid_body_motion,
            final(self).pose_is_known == old(self).pose_is_known,
    {
        self.update_global_chord_vectors();
        self.update_global_span_lines();
        self.update_global_span_points();
        self.update_ctrl_points();
    }

    /// Turns every wing back to a local wing angle of zero: the chord vectors in the body frame
    /// become those of the wings that have not been turned, and the world-frame quantities are
    /// brought up to date.
    pub fn reset_local_wing_angles(&mut self)
        requires
            old(self).well_formed(),
        ensures
            final(self).chord_vectors_local@ == old(self).chord_vectors_local_not_rotated@,
            final(self).rigid_body_motion == old(self).rigid_body_motion,
            final(self).pose_is_known == old(self).pose_is_known,
            final(self).well_formed(),
            final(self).global_data_is_current(),
            final(self).same_wings_as(old(self)),
    {
        self.chord_vectors_local = copy_vectors(&self.chord_vectors_local_not_rotated);
        self.update_global_data_representations();
    }

    /// Moves the body to `translation`, keeps its rotation, and brings the world-frame
    /// quantities up to date. From now on a pose is known.
    pub fn set_translation_only(&mut self, translation: SpatialVector)
        requires
            old(self).well_formed(),
        ensures
            final(self).rigid_body_motion == (RigidBodyMotion {
                translation,
                ..old(self).rigid_body_motion
            }),
            final(self).pose_is_known,
            final(self).well_formed(),
            final(self).global_data_is_current(),
            final(self).same_wings_as(old(self)),
            final(self).chord_vectors_local@ == old(self).chord_vectors_local@,
    {
        self.rigid_body_motion.translation = translation;
        self.pose_is_known = true;
        self.update_global_data_representations();
    }

    /// Turns the body to `rotation`, keeps its translation, and brings the world-frame
    /// quantities up to date. From now on a pose is known.
    pub fn set_rotation_only(&mut self, rotation: SpatialVector)
        requires
            old(self).well_formed(),
        ensures
            final(self).rigid_body_motion == (RigidBodyMotion {
                rotation,
                ..old(self).rigid_body_motion
            }),
            final(self).pose_is_known,
            final(self).well_formed(),
            final(self).global_data_is_current(),
            final(self).same_wings_as(old(self)),
            final(self).chord_vectors_local@ == old(self).chord_vectors_local@,
    {
        self.rigid_body_motion.rotation = rotation;
        self.pose_is_known = true;
        self.update_global_data_representations();
    }

    /// Moves the body to `translation` and turns it to `rotation`, and brings the world-frame
    /// quantities up to date. From now on a pose is known.
    pub fn set_translation_and_rotation(&mut self, translation: SpatialVector, rotation: SpatialVector)
        requires
            old(self).well_formed(),
        ensures
            final(self).rigid_body_motion == (RigidBodyMotion {
                translation,
                rotation,
                ..old(self).rigid_body_motion
            }),
            final(self).pose_is_known,
            final(self).well_formed(),
            final(self).global_data_is_current(),
            final(self).same_wings_as(old(self)),
            final(self).chord_vectors_local@ == old(self).chord_vectors_local@,
    {
        self.rigid_body_motion.translation = translation;
        self.rigid_body_motion.rotation = rotation;
        self.pose_is_known = true;
        self.update_global_data_representations();
    }

    /// Moves the body to a new pose and sets its velocities with it, and brings the world-frame
    /// quantities up to date.
    ///
    /// `from_difference` holds the linear and the angular velocity as the difference to the pose
    /// before gives them, or nothing where no such difference can be taken, as for a time step
    /// of zero. The body takes these velocities only where a pose was set before; at its first
    /// pose, and where `from_difference` holds nothing, both velocities are `at_rest`, the
    /// velocity of a body that does not move. From now on a pose is known.
    pub fn set_pose_with_velocity(
        &mut self,
        translation: SpatialVector,
        rotation: SpatialVector,
        from_difference: Option<(SpatialVector, SpatialVector)>,
        at_rest: SpatialVector,
    )
        requires
            old(self).well_formed(),
        ensures
            final(self).pose_is_known,
            final(self).rigid_body_motion.translation == translation,
            final(self).rigid_body_motion.rotation == rotation,
            (final(self).rigid_body_motion.velocity_linear, final(self).rigid_body_motion.velocity_angular)
                == (if old(self).pose_is_known && from_difference is Some {
                from_difference->0
            } else {
                (at_rest, at_rest)
            }),
            final(self).rigid_body_motion.rotation_type == old(self).rigid_body_motion.rotation_type,
            final(self).well_formed(),
            final(self).global_data_is_current(),
            final(self).same_wings_as(old(self)),
            final(self).chord_vectors_local@ == old(self).chord_vectors_local@,
    {
        let mut velocity_linear = at_rest;
        let mut velocity_angular = at_rest;
        if self.pose_is_known {
            match from_difference {
                Some(velocities) => {
                    velocity_linear = velocities.0;
                    velocity_angular = velocities.1;
                },
                None => {},
            }
        }
        self.rigid_body_motion.velocity_linear = velocity_linear;
        self.rigid_body_motion.velocity_angular = velocity_angular;
        self.pose_is_known = true;
        self.set_translation_and_rotation(translation, rotation);
    }
}

} // verus!
