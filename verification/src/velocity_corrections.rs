//! Corrections of the velocity sampled at the control points, applied before the angles of
//! attack are computed from it.
use vstd::prelude::*;

use core::ops::Range;

use stormath::spatial_vector::SpatialVector;

use crate::line_force_model::LineForceModel;
use crate::span_line::SpanLine;
use crate::vector::{
    add_vectors, copy_vectors, project_on_plane, projected_on_plane, subtract_vectors,
    vector_difference, vector_sum,
};
use crate::wings::wings_well_formed;

verus! {

/// Each velocity without its part along the span line of the same index.
pub open spec fn without_span_velocity(velocity: Seq<SpatialVector>, lines: Seq<SpanLine>) -> Seq<
    SpatialVector,
> {
    Seq::new(
        velocity.len(),
        |i: int| projected_on_plane(velocity[i], lines[i].spec_relative_vector()),
    )
}

/// The sum of each velocity and the correction of the same index.
pub open spec fn with_correction_added(
    velocity: Seq<SpatialVector>,
    correction: Seq<SpatialVector>,
) -> Seq<SpatialVector> {
    Seq::new(velocity.len(), |i: int| vector_sum(velocity[i], correction[i]))
}

/// The value one step beyond `near` on the straight line from `next` through `near`.
pub open spec fn extrapolated(near: SpatialVector, next: SpatialVector) -> SpatialVector {
    vector_sum(near, vector_difference(near, next))
}

/// Every wing has at least three span lines, so that each of its two ends has two neighbours
/// further in.
pub open spec fn wings_have_inner_lines(wings: Seq<Range<usize>>) -> bool {
    forall|w: int| 0 <= w < wings.len() ==> (#[trigger] wings[w]).end - wings[w].start >= 3
}

/// Whether the span line `i` is the first of a wing.
pub open spec fn is_first_of_wing(wings: Seq<Range<usize>>, i: int) -> bool {
    exists|w: int| 0 <= w < wings.len() && (#[trigger] wings[w]).start == i
}

/// Whether the span line `i` is the last of a wing.
pub open spec fn is_last_of_wing(wings: Seq<Range<usize>>, i: int) -> bool {
    exists|w: int| 0 <= w < wings.len() && (#[trigger] wings[w]).end - 1 == i
}

/// The velocity at the span line `i` once the ends of the wings are extrapolated: at the first
/// and the last line of a wing the value extrapolated from the two neighbours further in, and
/// the given value everywhere else.
pub open spec fn end_extrapolated_value(
    velocity: Seq<SpatialVector>,
    wings: Seq<Range<usize>>,
    i: int,
) -> SpatialVector {
    if is_first_of_wing(wings, i) {
        extrapolated(velocity[i + 1], velocity[i + 2])
    } else if is_last_of_wing(wings, i) {
        extrapolated(velocity[i - 1], velocity[i - 2])
    } else {
        velocity[i]
    }
}

/// The velocity with the corrections that come before the scaling: first the flow along the
/// span is removed, where that is asked for, then the correction is added, where there is one.
pub open spec fn spec_velocity_before_scaling(
    velocity: Seq<SpatialVector>,
    lines: Seq<SpanLine>,
    remove_span_velocity: bool,
    correction: Option<Seq<SpatialVector>>,
) -> Seq<SpatialVector> {
    let without_span = if remove_span_velocity {
        without_span_velocity(velocity, lines)
    } else {
        velocity
    };
    match correction {
        Some(correction) => with_correction_added(without_span, correction),
        None => without_span,
    }
}

/// Tells whether every wing has at least three span lines.
pub fn check_wings_have_inner_lines(wings: &Vec<Range<usize>>) -> (result: bool)
    ensures
        result == wings_have_inner_lines(wings@),
{
    let mut w: usize = 0;
    while w < wings.len()
        invariant
            w <= wings.len(),
            forall|v: int| 0 <= v < w ==> (#[trigger] wings@[v]).end - wings@[v].start >= 3,
        decreases wings.len() - w,
    {
        if wings[w].end < wings[w].start || wings[w].end - wings[w].start < 3 {
            return false;
        }
        w += 1;
    }
    true
}

impl LineForceModel {
    /// Removes from each velocity its part along the span line at which it was sampled, in the
    /// world frame. Flow along the span has no effect on the forces of a strip.
    pub fn remove_span_velocity(&self, velocity: &Vec<SpatialVector>) -> (result: Vec<SpatialVector>)
        requires
            velocity@.len() == self.span_lines_global@.len(),
        ensures
            result@ == without_span_velocity(velocity@, self.span_lines_global@),
    {
        let n = velocity.len();
        let mut result: Vec<SpatialVector> = Vec::new();
        let mut i: usize = 0;
        while i < n
            invariant
                n == velocity@.len(),
                n == self.span_lines_global@.len(),
                i <= n,
                result@.len() == i,
                forall|k: int|
                    0 <= k < i ==> result@[k] == projected_on_plane(
                        velocity@[k],
                        self.span_lines_global@[k].spec_relative_vector(),
                    ),
            decreases n - i,
        {
            let span_vector = self.span_lines_global[i].relative_vector();
            result.push(project_on_plane(velocity[i], span_vector));
            i += 1;
        }
        assert(result@ =~= without_span_velocity(velocity@, self.span_lines_global@));
        result
    }
}

impl LineForceModel {
    /// Applies to the velocity sampled at the control points the corrections that come before
    /// it is scaled: the flow along the span is removed where `remove_span_velocity` says so,
    /// and then `correction`, the velocity induced by the lifting line, is added where there is
    /// one.
    pub fn corrected_velocity_before_scaling(
        &self,
        velocity: &Vec<SpatialVector>,
        remove_span_velocity: bool,
        correction: Option<&Vec<SpatialVector>>,
    ) -> (result: Vec<SpatialVector>)
        requires
            velocity@.len() == self.span_lines_global@.len(),
            correction matches Some(c) ==> c@.len() == velocity@.len(),
        ensures
            result@ == spec_velocity_before_scaling(
                velocity@,
                self.span_lines_global@,
                remove_span_velocity,
                match correction {
                    Some(c) => Some(c@),
                    None => None,
                },
            ),
    {
        let mut result = if remove_span_velocity {
            self.remove_span_velocity(velocity)
        } else {
            copy_vectors(velocity)
        };
        match correction {
            Some(c) => {
                add_velocity_correction(&mut result, c);
            },
            None => {},
        }
        result
    }

    /// Applies to the velocity at the control points the correction that comes after it is
    /// scaled: the ends of each wing are extrapolated where `extrapolate_ends` says so.
    pub fn corrected_velocity_after_scaling(&self, velocity: &mut Vec<SpatialVector>, extrapolate_ends: bool)
        requires
            extrapolate_ends ==> wings_well_formed(self.wing_indices@, old(velocity)@.len())
                && wings_have_inner_lines(self.wing_indices@),
        ensures
            final(velocity)@.len() == old(velocity)@.len(),
            forall|i: int|
                0 <= i < old(velocity)@.len() ==> #[trigger] final(velocity)@[i] == if extrapolate_ends {
                    end_extrapolated_value(old(velocity)@, self.wing_indices@, i)
                } else {
                    old(velocity)@[i]
                },
    {
        if extrapolate_ends {
            extrapolate_end_velocities(velocity, &self.wing_indices);
        }
    }
}

/// Adds to each velocity the correction of the same index.
pub fn add_velocity_correction(velocity: &mut Vec<SpatialVector>, correction: &Vec<SpatialVector>)
    requires
        correction@.len() == old(velocity)@.len(),
    ensures
        final(velocity)@ == with_correction_added(old(velocity)@, correction@),
{
    let n = velocity.len();
    let ghost before = velocity@;
    let mut i: usize = 0;
    while i < n
        invariant
            n == before.len(),
            n == correction@.len(),
            velocity@.len() == n,
            i <= n,
            forall|k: int| 0 <= k < i ==> velocity@[k] == vector_sum(before[k], correction@[k]),
            forall|k: int| i <= k < n ==> velocity@[k] == before[k],
        decreases n - i,
    {
        let corrected = add_vectors(velocity[i], correction[i]);
        velocity.set(i, corrected);
        i += 1;
    }
    assert(velocity@ =~= with_correction_added(before, correction@));
}

/// Replaces the velocity at the first and at the last span line of each wing by the value
/// extrapolated linearly from its two neighbours further in. The velocity sampled at the ends of
/// a wing is the least reliable.
pub fn extrapolate_end_velocities(velocity: &mut Vec<SpatialVector>, wing_indices: &Vec<Range<usize>>)
    requires
        wings_well_formed(wing_indices@, old(velocity)@.len()),
        wings_have_inner_lines(wing_indices@),
    ensures
        final(velocity)@.len() == old(velocity)@.len(),
        forall|i: int|
            0 <= i < old(velocity)@.len() ==> #[trigger] final(velocity)@[i]
                == end_extrapolated_value(old(velocity)@, wing_indices@, i),
{
    let nr_wings = wing_indices.len();
    let ghost before = velocity@;
    let ghost wings = wing_indices@;
    let mut wing_index: usize = 0;
    let mut done_end: usize = 0;
    while wing_index < nr_wings
        invariant
            nr_wings == wings.len(),
            wings == wing_indices@,
            wing_index <= nr_wings,
            velocity@.len() == before.len(),
            wings_well_formed(wings, before.len()),
            wings_have_inner_lines(wings),
            done_end == if wing_index == 0 {
                0
            } else {
                wings[wing_index - 1].end
            },
            forall|i: int|
                0 <= i < done_end ==> #[trigger] velocity@[i] == end_extrapolated_value(
                    before,
                    wings,
                    i,
                ),
            forall|i: int| done_end <= i < before.len() ==> #[trigger] velocity@[i] == before[i],
        decreases nr_wings - wing_index,
    {
        let first = wing_indices[wing_index].start;
        let last = wing_indices[wing_index].end - 1;
        let ghost wing = wings[wing_index as int];
        proof {
            if wing_index > 0 {
                assert(wings[wing_index - 1].end <= wings[wing_index as int].start);
            }
        }
        let first_delta = subtract_vectors(velocity[first + 1], velocity[first + 2]);
        let last_delta = subtract_vectors(velocity[last - 1], velocity[last - 2]);
        let first_value = add_vectors(velocity[first + 1], first_delta);
        let last_value = add_vectors(velocity[last - 1], last_delta);
        let ghost at_start = velocity@;
        velocity.set(first, first_value);
        velocity.set(last, last_value);
        proof {
            assert forall|i: int| 0 <= i < wing.end implies #[trigger] velocity@[i]
                == end_extrapolated_value(before, wings, i) by {
                if i < done_end {
                    assert(at_start[i] == end_extrapolated_value(before, wings, i));
                } else {
                    lemma_ends_of_wing(wings, before.len(), wing_index as int, i);
                }
            }
        }
        done_end = last + 1;
        wing_index += 1;
    }
    proof {
        assert forall|i: int| 0 <= i < before.len() implies #[trigger] velocity@[i]
            == end_extrapolated_value(before, wings, i) by {
            if i >= done_end {
                lemma_beyond_last_wing(wings, before.len(), i);
            }
        }
    }
}

/// From the start of the wing `w` up to its end, and in the gap before it, a span line is the
/// first of a wing only if it is the first of `w` and the last of a wing only if it is the last
/// of `w`.
proof fn lemma_ends_of_wing(wings: Seq<Range<usize>>, nr_span_lines: nat, w: int, i: int)
    requires
        wings_well_formed(wings, nr_span_lines),
        wings_have_inner_lines(wings),
        0 <= w < wings.len(),
        (if w == 0 {
            0
        } else {
            wings[w - 1].end as int
        }) <= i < wings[w].end,
    ensures
        is_first_of_wing(wings, i) <==> i == wings[w].start,
        is_last_of_wing(wings, i) <==> i == wings[w].end - 1,
        wings[w].start != wings[w].end - 1,
{
    assert(wings[w].end - wings[w].start >= 3);
    assert forall|v: int| 0 <= v < wings.len() && v != w implies (#[trigger] wings[v]).start != i
        && wings[v].end - 1 != i by {
        assert(wings[v].start < wings[v].end);
        if v < w {
            assert(wings[v].end <= wings[w].start);
            if v < w - 1 {
                assert(wings[v].end <= wings[w - 1].start);
                assert(wings[w - 1].start < wings[w - 1].end);
            }
        } else {
            assert(wings[w].end <= wings[v].start);
        }
    }
}

/// Beyond the end of the last wing no span line is the first or the last of a wing.
proof fn lemma_beyond_last_wing(wings: Seq<Range<usize>>, nr_span_lines: nat, i: int)
    requires
        wings_well_formed(wings, nr_span_lines),
        (if wings.len() == 0 {
            0
        } else {
            wings[wings.len() - 1].end as int
        }) <= i,
    ensures
        !is_first_of_wing(wings, i),
        !is_last_of_wing(wings, i),
{
    assert forall|v: int| 0 <= v < wings.len() implies (#[trigger] wings[v]).start != i
        && wings[v].end - 1 != i by {
        assert(wings[v].start < wings[v].end);
        if v < wings.len() - 1 {
            assert(wings[v].end <= wings[wings.len() - 1].start);
            assert(wings[wings.len() - 1].start < wings[wings.len() - 1].end);
        }
    }
}

} // verus!
