//! The line force model: wings described by span lines and chord vectors, fixed to a rigid body.
//!
//! The model holds the body-fixed description of the wings, the motion of the body, and the
//! world-frame quantities derived from the two. The derived quantities are recomputed by every
//! function that changes the motion or the chord vectors.
pub mod data_update;

use vstd::prelude::*;

use core::ops::Range;

use stormath::spatial_vector::SpatialVector;

use crate::rigid_body_motion::{moves_point_to, turns_vector_to, RigidBodyMotion};
use crate::span_line::SpanLine;
use crate::vector::copy_vectors;
use crate::wings::{
    check_wings, find_wing, lemma_wing_of_line_is_unique, span_points_of, wing_contains,
    wings_well_formed,
};

verus! {

/// The control point of each line of `lines`.
pub open spec fn ctrl_points_of(lines: Seq<SpanLine>) -> Seq<SpatialVector> {
    Seq::new(lines.len(), |i: int| lines[i].spec_ctrl_point())
}

/// Each line of `global` has the end points that `motion` makes of the end points of the line
/// of `local` with the same index.
pub open spec fn lines_moved_by(motion: RigidBodyMotion, local: Seq<SpanLine>, global: Seq<SpanLine>) -> bool {
    &&& global.len() == local.len()
    &&& forall|i: int|
        0 <= i < local.len() ==> moves_point_to(
            motion,
            local[i].start_point,
            (#[trigger] global[i]).start_point,
        ) && moves_point_to(motion, local[i].end_point, global[i].end_point)
}

/// Each vector of `global` is what `motion` makes of the vector of `local` with the same index.
pub open spec fn vectors_turned_by(
    motion: RigidBodyMotion,
    local: Seq<SpatialVector>,
    global: Seq<SpatialVector>,
) -> bool {
    &&& global.len() == local.len()
    &&& forall|i: int|
        0 <= i < local.len() ==> turns_vector_to(motion, local[i], #[trigger] global[i])
}

/// Wings made of span lines, with the motion of the body that carries them.
#[derive(Clone, Debug)]
pub struct LineForceModel {
    /// The span lines in the body frame.
    pub span_lines_local: Vec<SpanLine>,
    /// The chord vector of each span line in the body frame, before the wing is turned.
    pub chord_vectors_local_not_rotated: Vec<SpatialVector>,
    /// The chord vector of each span line in the body frame as the wings stand now. The model
    /// starts with the chord vectors of the wings that have not been turned; whoever turns a
    /// wing hands in the turned chord vectors.
    pub chord_vectors_local: Vec<SpatialVector>,
    /// The range of span lines that makes up each wing.
    pub wing_indices: Vec<Range<usize>>,
    /// For each wing, whether the circulation may differ from zero at its first and last end.
    pub non_zero_circulation_at_ends: Vec<[bool; 2]>,
    /// The motion of the body.
    pub rigid_body_motion: RigidBodyMotion,
    /// Whether a pose has been set before, so that a difference of poses exists.
    pub pose_is_known: bool,
    /// The span lines in the world frame.
    pub span_lines_global: Vec<SpanLine>,
    /// The end points of the span lines of each wing in the world frame.
    pub span_points_global: Vec<SpatialVector>,
    /// The chord vectors in the world frame.
    pub chord_vectors_global: Vec<SpatialVector>,
    /// The control points in the world frame.
    pub ctrl_points_global: Vec<SpatialVector>,
}

impl LineForceModel {
    /// The body-fixed description is consistent: the wings divide the span lines properly, there
    /// is one chord vector for each span line, turned or not, and one pair of end conditions for
    /// each wing.
    pub open spec fn well_formed(&self) -> bool {
        &&& wings_well_formed(self.wing_indices@, self.span_lines_local@.len())
        &&& self.chord_vectors_local_not_rotated@.len() == self.span_lines_local@.len()
        &&& self.chord_vectors_local@.len() == self.span_lines_local@.len()
        &&& self.non_zero_circulation_at_ends@.len() == self.wing_indices@.len()
    }

    /// The world-frame quantities are what the body-fixed description gives under the present
    /// motion: each chord vector and each end point of a span line in the world frame is what
    /// the motion makes of the one in the body frame, and the span points and the control points
    /// are those of the span lines in the world frame.
    pub open spec fn global_data_is_current(&self) -> bool {
        &&& vectors_turned_by(
            self.rigid_body_motion,
            self.chord_vectors_local@,
            self.chord_vectors_global@,
        )
        &&& lines_moved_by(self.rigid_body_motion, self.span_lines_local@, self.span_lines_global@)
        &&& self.span_points_global@ == span_points_of(
            self.span_lines_global@,
            self.wing_indices@,
        )
        &&& self.ctrl_points_global@ == ctrl_points_of(self.span_lines_global@)
    }

    /// Both models describe the same wings in the body frame, before any wing is turned.
    pub open spec fn same_wings_as(&self, other: &LineForceModel) -> bool {
        &&& self.span_lines_local@ == other.span_lines_local@
        &&& self.chord_vectors_local_not_rotated@ == other.chord_vectors_local_not_rotated@
        &&& self.wing_indices@ == other.wing_indices@
        &&& self.non_zero_circulation_at_ends@ == other.non_zero_circulation_at_ends@
    }

    /// Builds a model from the body-fixed description of its wings and the motion of the body.
    ///
    /// The wings start out not turned, no pose counts as known, and the world-frame quantities
    /// are up to date. Returns `None` where the description is not consistent: a wing without
    /// span lines or with span lines that do not exist, wings that overlap or are out of order,
    /// or a number of chord vectors or end conditions that does not match.
    pub fn new(
        span_lines_local: Vec<SpanLine>,
        chord_vectors_local_not_rotated: Vec<SpatialVector>,
        wing_indices: Vec<Range<usize>>,
        non_zero_circulation_at_ends: Vec<[bool; 2]>,
        rigid_body_motion: RigidBodyMotion,
    ) -> (result: Option<LineForceModel>)
        ensures
            result.is_some() <==> {
                &&& wings_well_formed(wing_indices@, span_lines_local@.len())
                &&& chord_vectors_local_not_rotated@.len() == span_lines_local@.len()
                &&& non_zero_circulation_at_ends@.len() == wing_indices@.len()
            },
            result matches Some(model) ==> {
                &&& model.well_formed()
                &&& model.global_data_is_current()
                &&& model.span_lines_local@ == span_lines_local@
                &&& model.chord_vectors_local_not_rotated@ == chord_vectors_local_not_rotated@
                &&& model.chord_vectors_local@ == chord_vectors_local_not_rotated@
                &&& model.wing_indices@ == wing_indices@
                &&& model.non_zero_circulation_at_ends@ == non_zero_circulation_at_ends@
                &&& model.rigid_body_motion == rigid_body_motion
                &&& !model.pose_is_known
            },
    {
        if !check_wings(&wing_indices, span_lines_local.len())
            || chord_vectors_local_not_rotated.len() != span_lines_local.len()
            || non_zero_circulation_at_ends.len() != wing_indices.len() {
            return None;
        }
        let chord_vectors_local = copy_vectors(&chord_vectors_local_not_rotated);
        let mut model = LineForceModel {
            span_lines_local,
            chord_vectors_local_not_rotated,
            chord_vectors_local,
            wing_indices,
            non_zero_circulation_at_ends,
            rigid_body_motion,
            pose_is_known: false,
            span_lines_global: Vec::new(),
            span_points_global: Vec::new(),
            chord_vectors_global: Vec::new(),
            ctrl_points_global: Vec::new(),
        };
        model.update_global_data_representations();
        Some(model)
    }

    /// The number of wings.
    pub fn nr_wings(&self) -> (result: usize)
        ensures
            result == self.wing_indices@.len(),
    {
        self.wing_indices.len()
    }

    /// The number of span lines of all wings together.
    pub fn nr_span_lines(&self) -> (result: usize)
        ensures
            result == self.span_lines_local@.len(),
    {
        self.span_lines_local.len()
    }

    /// The wing that the span line `global_index` belongs to.
    pub fn wing_index_from_global(&self, global_index: usize) -> (wing_index: usize)
        requires
            exists|w: int|
                0 <= w < self.wing_indices@.len() && wing_contains(
                    #[trigger] self.wing_indices@[w],
                    global_index as int,
                ),
        ensures
            wing_index < self.wing_indices@.len(),
            wing_contains(self.wing_indices@[wing_index as int], global_index as int),
            forall|v: int|
                0 <= v < wing_index ==> !wing_contains(
                    #[trigger] self.wing_indices@[v],
                    global_index as int,
                ),
    {
        match find_wing(&self.wing_indices, global_index) {
            Some(wing_index) => wing_index,
            None => 0,
        }
    }

    /// The axis about which the chord vector of the span line `global_index` is turned when its
    /// wing is turned: the span of the first line of that wing, in the body frame. Returns
    /// `None` for a span line that belongs to no wing.
    pub fn wing_span_axis(&self, global_index: usize) -> (result: Option<SpatialVector>)
        requires
            wings_well_formed(self.wing_indices@, self.span_lines_local@.len()),
        ensures
            result is Some <==> exists|w: int|
                0 <= w < self.wing_indices@.len() && wing_contains(
                    #[trigger] self.wing_indices@[w],
                    global_index as int,
                ),
            result matches Some(axis) ==> forall|w: int|
                0 <= w < self.wing_indices@.len() && wing_contains(
                    #[trigger] self.wing_indices@[w],
                    global_index as int,
                ) ==> axis == self.span_lines_local@[self.wing_indices@[w].start as int].spec_relative_vector(),
    {
        match find_wing(&self.wing_indices, global_index) {
            Some(wing_index) => {
                let first_line = self.wing_indices[wing_index].start;
                let axis = self.span_lines_local[first_line].relative_vector();
                proof {
                    assert forall|w: int|
                        0 <= w < self.wing_indices@.len() && wing_contains(
                            #[trigger] self.wing_indices@[w],
                            global_index as int,
                        ) implies w == wing_index by {
                        lemma_wing_of_line_is_unique(
                            self.wing_indices@,
                            self.span_lines_local@.len(),
                            w,
                            wing_index as int,
                            global_index as int,
                        );
                    }
                }
                Some(axis)
            },
            None => None,
        }
    }
}

} // verus!
