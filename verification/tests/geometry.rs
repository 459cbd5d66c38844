use stormath::spatial_vector::SpatialVector;

use stormbird::line_force_model::LineForceModel;
use stormbird::rigid_body_motion::{RigidBodyMotion, RotationType};
use stormbird::span_line::SpanLine;
use stormbird::wings::{check_wings, circulation_coordinate_remap, find_wing, SpanCoordinateRemap};

fn motion_at_rest() -> RigidBodyMotion {
    RigidBodyMotion {
        translation: SpatialVector::new(0.0, 0.0, 0.0),
        rotation: SpatialVector::new(0.0, 0.0, 0.0),
        velocity_linear: SpatialVector::new(0.0, 0.0, 0.0),
        velocity_angular: SpatialVector::new(0.0, 0.0, 0.0),
        rotation_type: RotationType::XYZ,
    }
}

/// Two upright wings: the first with three span lines at x = 0, the second with two at x = 10.
fn two_wings() -> LineForceModel {
    let mut span_lines = Vec::new();
    for k in 0..3 {
        span_lines.push(SpanLine {
            start_point: SpatialVector::new(0.0, 0.0, 2.0 * k as f64),
            end_point: SpatialVector::new(0.0, 0.0, 2.0 * (k + 1) as f64),
        });
    }
    for k in 0..2 {
        span_lines.push(SpanLine {
            start_point: SpatialVector::new(10.0, 0.0, 4.0 * k as f64),
            end_point: SpatialVector::new(10.0, 0.0, 4.0 * (k + 1) as f64),
        });
    }
    let chords = vec![SpatialVector::new(1.5, 0.0, 0.0); 5];
    LineForceModel::new(
        span_lines,
        chords,
        vec![0..3, 3..5],
        vec![[false, false], [false, false]],
        motion_at_rest(),
    )
    .unwrap()
}

fn assert_close(a: SpatialVector, b: SpatialVector) {
    for i in 0..3 {
        assert!((a[i] - b[i]).abs() < 1e-12, "{:?} differs from {:?}", a, b);
    }
}

#[test]
fn model_at_rest_has_global_data_equal_to_local_data() {
    let model = two_wings();
    assert_eq!(model.nr_wings(), 2);
    assert_eq!(model.nr_span_lines(), 5);
    assert_eq!(model.span_lines_global.len(), 5);
    for i in 0..5 {
        assert_eq!(model.span_lines_global[i].start_point, model.span_lines_local[i].start_point);
        assert_eq!(model.span_lines_global[i].end_point, model.span_lines_local[i].end_point);
        assert_eq!(model.chord_vectors_global[i], SpatialVector::new(1.5, 0.0, 0.0));
        assert_eq!(model.chord_vectors_local[i], SpatialVector::new(1.5, 0.0, 0.0));
    }
}

#[test]
fn control_points_are_the_midpoints_of_the_span_lines() {
    let model = two_wings();
    assert_eq!(model.ctrl_points_global.len(), 5);
    assert_eq!(model.ctrl_points_global[0], SpatialVector::new(0.0, 0.0, 1.0));
    assert_eq!(model.ctrl_points_global[1], SpatialVector::new(0.0, 0.0, 3.0));
    assert_eq!(model.ctrl_points_global[2], SpatialVector::new(0.0, 0.0, 5.0));
    assert_eq!(model.ctrl_points_global[3], SpatialVector::new(10.0, 0.0, 2.0));
    assert_eq!(model.ctrl_points_global[4], SpatialVector::new(10.0, 0.0, 6.0));
}

#[test]
fn span_line_control_point_and_relative_vector() {
    let line = SpanLine {
        start_point: SpatialVector::new(1.0, 2.0, 3.0),
        end_point: SpatialVector::new(2.0, 4.0, 7.0),
    };
    assert_eq!(line.ctrl_point(), SpatialVector::new(1.5, 3.0, 5.0));
    assert_eq!(line.relative_vector(), SpatialVector::new(1.0, 2.0, 4.0));
}

#[test]
fn span_points_hold_one_point_more_than_lines_for_each_wing() {
    let model = two_wings();
    let expected = vec![
        SpatialVector::new(0.0, 0.0, 0.0),
        SpatialVector::new(0.0, 0.0, 2.0),
        SpatialVector::new(0.0, 0.0, 4.0),
        SpatialVector::new(0.0, 0.0, 6.0),
        SpatialVector::new(10.0, 0.0, 0.0),
        SpatialVector::new(10.0, 0.0, 4.0),
        SpatialVector::new(10.0, 0.0, 8.0),
    ];
    assert_eq!(model.span_points_global, expected);
}

#[test]
fn translation_moves_points_and_leaves_chord_vectors() {
    let mut model = two_wings();
    model.set_translation_only(SpatialVector::new(1.0, 2.0, 3.0));
    assert_eq!(model.rigid_body_motion.translation, SpatialVector::new(1.0, 2.0, 3.0));
    assert_eq!(model.span_lines_global[0].start_point, SpatialVector::new(1.0, 2.0, 3.0));
    assert_eq!(model.span_lines_global[4].end_point, SpatialVector::new(11.0, 2.0, 11.0));
    assert_eq!(model.ctrl_points_global[3], SpatialVector::new(11.0, 2.0, 5.0));
    assert_eq!(model.span_points_global[4], SpatialVector::new(11.0, 2.0, 3.0));
    assert_eq!(model.span_points_global.len(), 7);
    for i in 0..5 {
        assert_eq!(model.chord_vectors_global[i], SpatialVector::new(1.5, 0.0, 0.0));
        assert_eq!(model.span_lines_local[i].start_point[0], if i < 3 { 0.0 } else { 10.0 });
    }
}

#[test]
fn rotation_about_the_vertical_axis_turns_chords_and_points() {
    let mut model = two_wings();
    let quarter_turn = std::f64::consts::FRAC_PI_2;
    model.set_rotation_only(SpatialVector::new(0.0, 0.0, quarter_turn));
    assert_eq!(model.rigid_body_motion.rotation, SpatialVector::new(0.0, 0.0, quarter_turn));
    assert_eq!(model.rigid_body_motion.translation, SpatialVector::new(0.0, 0.0, 0.0));
    for i in 0..5 {
        assert_close(model.chord_vectors_global[i], SpatialVector::new(0.0, 1.5, 0.0));
    }
    assert_close(model.span_lines_global[3].start_point, SpatialVector::new(0.0, 10.0, 0.0));
    assert_close(model.ctrl_points_global[4], SpatialVector::new(0.0, 10.0, 6.0));
    assert_close(model.span_points_global[6], SpatialVector::new(0.0, 10.0, 8.0));
}

#[test]
fn translation_and_rotation_together() {
    let mut model = two_wings();
    let quarter_turn = std::f64::consts::FRAC_PI_2;
    model.set_translation_and_rotation(
        SpatialVector::new(0.0, 0.0, 5.0),
        SpatialVector::new(0.0, 0.0, quarter_turn),
    );
    assert_close(model.span_lines_global[3].start_point, SpatialVector::new(0.0, 10.0, 5.0));
    assert_close(model.span_lines_global[0].end_point, SpatialVector::new(0.0, 0.0, 7.0));
    assert_close(model.chord_vectors_global[0], SpatialVector::new(0.0, 1.5, 0.0));
}

#[test]
fn stale_global_data_is_replaced_by_an_update() {
    let mut model = two_wings();
    model.rigid_body_motion.translation = SpatialVector::new(0.0, 1.0, 0.0);
    model.span_lines_global.clear();
    model.ctrl_points_global.clear();
    model.span_points_global.clear();
    model.chord_vectors_global.clear();
    model.update_global_data_representations();
    assert_eq!(model.span_lines_global.len(), 5);
    assert_eq!(model.span_points_global.len(), 7);
    assert_eq!(model.chord_vectors_global.len(), 5);
    assert_eq!(model.ctrl_points_global[0], SpatialVector::new(0.0, 1.0, 1.0));
}

#[test]
fn turned_chord_vectors_are_stored_and_kept() {
    let mut model = two_wings();
    model.update_chord_vectors(vec![SpatialVector::new(0.0, 1.5, 0.0); 5]);
    for i in 0..5 {
        assert_eq!(model.chord_vectors_local[i], SpatialVector::new(0.0, 1.5, 0.0));
        assert_eq!(model.chord_vectors_global[i], SpatialVector::new(0.0, 1.5, 0.0));
        assert_eq!(model.chord_vectors_local_not_rotated[i], SpatialVector::new(1.5, 0.0, 0.0));
    }
    model.set_translation_only(SpatialVector::new(3.0, 0.0, 0.0));
    model.update_global_data_representations();
    for i in 0..5 {
        assert_eq!(model.chord_vectors_local[i], SpatialVector::new(0.0, 1.5, 0.0));
        assert_eq!(model.chord_vectors_global[i], SpatialVector::new(0.0, 1.5, 0.0));
    }
    model.set_rotation_only(SpatialVector::new(0.0, 0.0, std::f64::consts::FRAC_PI_2));
    for i in 0..5 {
        assert_eq!(model.chord_vectors_local[i], SpatialVector::new(0.0, 1.5, 0.0));
        assert_close(model.chord_vectors_global[i], SpatialVector::new(-1.5, 0.0, 0.0));
    }
}

#[test]
fn wings_are_turned_back_by_a_reset() {
    let mut model = two_wings();
    model.update_chord_vectors(vec![SpatialVector::new(0.0, 1.5, 0.0); 5]);
    model.set_translation_only(SpatialVector::new(0.0, 0.0, 1.0));
    assert_eq!(model.chord_vectors_global[2], SpatialVector::new(0.0, 1.5, 0.0));
    model.reset_local_wing_angles();
    for i in 0..5 {
        assert_eq!(model.chord_vectors_local[i], SpatialVector::new(1.5, 0.0, 0.0));
        assert_eq!(model.chord_vectors_global[i], SpatialVector::new(1.5, 0.0, 0.0));
    }
    assert_eq!(model.rigid_body_motion.translation, SpatialVector::new(0.0, 0.0, 1.0));
    assert_eq!(model.ctrl_points_global[0], SpatialVector::new(0.0, 0.0, 2.0));
}

#[test]
fn single_updates_change_only_their_own_field() {
    let mut model = two_wings();
    model.rigid_body_motion.translation = SpatialVector::new(1.0, 0.0, 0.0);
    model.update_global_span_lines();
    assert_eq!(model.span_lines_global[0].start_point, SpatialVector::new(1.0, 0.0, 0.0));
    assert_eq!(model.ctrl_points_global[0], SpatialVector::new(0.0, 0.0, 1.0));
    assert_eq!(model.span_points_global[0], SpatialVector::new(0.0, 0.0, 0.0));
    model.update_global_span_points();
    assert_eq!(model.span_points_global[0], SpatialVector::new(1.0, 0.0, 0.0));
    assert_eq!(model.ctrl_points_global[0], SpatialVector::new(0.0, 0.0, 1.0));
    model.update_ctrl_points();
    assert_eq!(model.ctrl_points_global[0], SpatialVector::new(1.0, 0.0, 1.0));
}

#[test]
fn inconsistent_descriptions_are_rejected() {
    let line = SpanLine {
        start_point: SpatialVector::new(0.0, 0.0, 0.0),
        end_point: SpatialVector::new(0.0, 0.0, 1.0),
    };
    let chord = SpatialVector::new(1.0, 0.0, 0.0);
    let build = |wings: Vec<std::ops::Range<usize>>, nr_chords: usize, nr_ends: usize| {
        LineForceModel::new(
            vec![line; 4],
            vec![chord; nr_chords],
            wings,
            vec![[false, false]; nr_ends],
            motion_at_rest(),
        )
    };
    assert!(build(vec![0..2, 2..4], 4, 2).is_some());
    assert!(build(vec![0..1, 3..4], 4, 2).is_some());
    assert!(build(vec![], 4, 0).is_some());
    assert!(build(vec![0..2, 2..5], 4, 2).is_none());
    assert!(build(vec![0..2, 1..4], 4, 2).is_none());
    assert!(build(vec![2..4, 0..2], 4, 2).is_none());
    assert!(build(vec![0..2, 2..2], 4, 2).is_none());
    assert!(build(vec![0..2, 2..4], 3, 2).is_none());
    assert!(build(vec![0..2, 2..4], 4, 1).is_none());
}

#[test]
fn wings_are_checked_and_found() {
    let wings = vec![0..3, 3..5, 7..9];
    assert!(check_wings(&wings, 9));
    assert!(!check_wings(&wings, 8));
    assert_eq!(find_wing(&wings, 0), Some(0));
    assert_eq!(find_wing(&wings, 2), Some(0));
    assert_eq!(find_wing(&wings, 3), Some(1));
    assert_eq!(find_wing(&wings, 5), None);
    assert_eq!(find_wing(&wings, 8), Some(2));
    assert_eq!(find_wing(&wings, 9), None);
    let model = two_wings();
    assert_eq!(model.wing_index_from_global(0), 0);
    assert_eq!(model.wing_index_from_global(2), 0);
    assert_eq!(model.wing_index_from_global(3), 1);
    assert_eq!(model.wing_index_from_global(4), 1);
}

#[test]
fn the_first_pose_leaves_the_body_at_rest() {
    let mut model = two_wings();
    assert!(!model.pose_is_known);
    let zero = SpatialVector::new(0.0, 0.0, 0.0);
    model.set_pose_with_velocity(
        SpatialVector::new(1.0, 0.0, 0.0),
        SpatialVector::new(0.0, 0.0, 0.0),
        Some((SpatialVector::new(10.0, 0.0, 0.0), SpatialVector::new(0.0, 0.0, 0.5))),
        zero,
    );
    assert!(model.pose_is_known);
    assert_eq!(model.rigid_body_motion.translation, SpatialVector::new(1.0, 0.0, 0.0));
    assert_eq!(model.rigid_body_motion.velocity_linear, zero);
    assert_eq!(model.rigid_body_motion.velocity_angular, zero);
    assert_eq!(model.span_lines_global[0].start_point, SpatialVector::new(1.0, 0.0, 0.0));
    assert_eq!(model.ctrl_points_global[0], SpatialVector::new(1.0, 0.0, 1.0));
}

#[test]
fn later_poses_take_the_velocity_of_the_difference() {
    let mut model = two_wings();
    let zero = SpatialVector::new(0.0, 0.0, 0.0);
    model.set_pose_with_velocity(zero, zero, None, zero);
    assert!(model.pose_is_known);
    assert_eq!(model.rigid_body_motion.velocity_linear, zero);
    model.set_pose_with_velocity(
        SpatialVector::new(0.5, 0.0, 0.0),
        zero,
        Some((SpatialVector::new(5.0, 0.0, 0.0), SpatialVector::new(0.0, 0.0, 0.25))),
        zero,
    );
    assert_eq!(model.rigid_body_motion.translation, SpatialVector::new(0.5, 0.0, 0.0));
    assert_eq!(model.rigid_body_motion.velocity_linear, SpatialVector::new(5.0, 0.0, 0.0));
    assert_eq!(model.rigid_body_motion.velocity_angular, SpatialVector::new(0.0, 0.0, 0.25));
    assert_eq!(model.rigid_body_motion.rotation_type, RotationType::XYZ);
    assert_eq!(model.span_points_global[0], SpatialVector::new(0.5, 0.0, 0.0));
}

#[test]
fn a_pose_without_a_difference_leaves_the_body_at_rest() {
    let mut model = two_wings();
    let zero = SpatialVector::new(0.0, 0.0, 0.0);
    model.set_pose_with_velocity(zero, zero, None, zero);
    model.set_pose_with_velocity(
        SpatialVector::new(0.5, 0.0, 0.0),
        zero,
        Some((SpatialVector::new(5.0, 0.0, 0.0), zero)),
        zero,
    );
    model.set_pose_with_velocity(SpatialVector::new(0.75, 0.0, 0.0), zero, None, zero);
    assert_eq!(model.rigid_body_motion.translation, SpatialVector::new(0.75, 0.0, 0.0));
    assert_eq!(model.rigid_body_motion.velocity_linear, zero);
    assert_eq!(model.rigid_body_motion.velocity_angular, zero);
    assert!(model.pose_is_known);
}

#[test]
fn a_pose_set_without_velocity_counts_for_the_next_difference() {
    let zero = SpatialVector::new(0.0, 0.0, 0.0);
    let velocities = Some((SpatialVector::new(2.0, 0.0, 0.0), SpatialVector::new(0.0, 0.0, 1.0)));

    let mut model = two_wings();
    model.set_translation_only(SpatialVector::new(1.0, 0.0, 0.0));
    assert!(model.pose_is_known);
    model.set_pose_with_velocity(SpatialVector::new(1.2, 0.0, 0.0), zero, velocities, zero);
    assert_eq!(model.rigid_body_motion.velocity_linear, SpatialVector::new(2.0, 0.0, 0.0));
    assert_eq!(model.rigid_body_motion.velocity_angular, SpatialVector::new(0.0, 0.0, 1.0));

    let mut model = two_wings();
    model.set_rotation_only(zero);
    assert!(model.pose_is_known);

    let mut model = two_wings();
    model.set_translation_and_rotation(zero, zero);
    assert!(model.pose_is_known);

    let mut model = two_wings();
    model.update_global_data_representations();
    model.reset_local_wing_angles();
    model.update_chord_vectors(vec![SpatialVector::new(1.5, 0.0, 0.0); 5]);
    assert!(!model.pose_is_known);
}

#[test]
fn the_axis_of_a_turn_is_the_span_of_the_first_line_of_the_wing() {
    let mut span_lines = Vec::new();
    for k in 0..4 {
        span_lines.push(SpanLine {
            start_point: SpatialVector::new(0.0, 0.0, k as f64),
            end_point: SpatialVector::new(0.0, 0.5 * k as f64, (k + 1) as f64),
        });
    }
    let model = LineForceModel::new(
        span_lines,
        vec![SpatialVector::new(1.0, 0.0, 0.0); 4],
        vec![0..1, 2..4],
        vec![[false, false]; 2],
        motion_at_rest(),
    )
    .unwrap();
    assert_eq!(model.wing_span_axis(0), Some(SpatialVector::new(0.0, 0.0, 1.0)));
    assert_eq!(model.wing_span_axis(1), None);
    assert_eq!(model.wing_span_axis(2), Some(SpatialVector::new(0.0, 1.0, 1.0)));
    assert_eq!(model.wing_span_axis(3), Some(SpatialVector::new(0.0, 1.0, 1.0)));
    assert_eq!(model.wing_span_axis(4), None);
}

#[test]
fn the_spanwise_coordinate_is_remapped_by_the_end_conditions() {
    assert_eq!(circulation_coordinate_remap([false, false]), SpanCoordinateRemap::Unchanged);
    assert_eq!(circulation_coordinate_remap([true, true]), SpanCoordinateRemap::Unchanged);
    assert_eq!(circulation_coordinate_remap([true, false]), SpanCoordinateRemap::UpperHalf);
    assert_eq!(circulation_coordinate_remap([false, true]), SpanCoordinateRemap::LowerHalf);
}
