//! How the flat list of span lines is divided into wings.
//!
//! A wing is a half-open range of indices into the list of span lines. The wings of a model are
//! non-empty, lie within the list, and come in order without overlapping.
use vstd::prelude::*;

use core::ops::Range;

use stormath::spatial_vector::SpatialVector;

use crate::span_line::SpanLine;

verus! {

/// How the spanwise coordinate of a control point, which runs from -0.5 at the first end of its
/// wing to 0.5 at the last, is mapped to the coordinate that the correction of the circulation
/// reads.
#[derive(Clone, Copy, Debug, PartialEq, Eq, Structural)]
pub enum SpanCoordinateRemap {
    /// The coordinate is used as it is.
    Unchanged,
    /// The wing counts as the upper half of the range: the coordinate `s` becomes
    /// `(s + 0.5) / 2`, from 0 to 0.5.
    UpperHalf,
    /// The wing counts as the lower half of the range: the coordinate `s` becomes
    /// `(s - 0.5) / 2`, from -0.5 to 0.
    LowerHalf,
}

/// The remap for a wing whose circulation may differ from zero at the ends that
/// `non_zero_circulation_at_ends` marks, first end first.
pub open spec fn spec_circulation_coordinate_remap(non_zero_circulation_at_ends: [bool; 2]) -> SpanCoordinateRemap {
    if non_zero_circulation_at_ends[0] && !non_zero_circulation_at_ends[1] {
        SpanCoordinateRemap::UpperHalf
    } else if !non_zero_circulation_at_ends[0] && non_zero_circulation_at_ends[1] {
        SpanCoordinateRemap::LowerHalf
    } else {
        SpanCoordinateRemap::Unchanged
    }
}

/// Chooses the remap of the spanwise coordinate from the conditions at the two ends of a wing.
///
/// Where the circulation goes to zero at both ends, or at neither, the coordinate is unchanged.
/// Where it goes to zero at the last end only, the wing counts as the upper half of the range,
/// and where it goes to zero at the first end only, as the lower half.
pub fn circulation_coordinate_remap(non_zero_circulation_at_ends: [bool; 2]) -> (remap: SpanCoordinateRemap)
    ensures
        remap == spec_circulation_coordinate_remap(non_zero_circulation_at_ends),
{
    let at_first = non_zero_circulation_at_ends[0];
    let at_last = non_zero_circulation_at_ends[1];
    if at_first && !at_last {
        SpanCoordinateRemap::UpperHalf
    } else if !at_first && at_last {
        SpanCoordinateRemap::LowerHalf
    } else {
        SpanCoordinateRemap::Unchanged
    }
}

/// Whether the span line `index` belongs to `wing`.
pub open spec fn wing_contains(wing: Range<usize>, index: int) -> bool {
    wing.start <= index < wing.end
}

/// Every wing holds at least one of the `nr_span_lines` lines, and a wing ends before the next
/// one starts.
pub open spec fn wings_well_formed(wings: Seq<Range<usize>>, nr_span_lines: nat) -> bool {
    &&& forall|w: int|
        0 <= w < wings.len() ==> (#[trigger] wings[w]).start < wings[w].end && wings[w].end
            <= nr_span_lines
    &&& forall|v: int, w: int|
        0 <= v < w < wings.len() ==> (#[trigger] wings[v]).end <= (#[trigger] wings[w]).start
}

/// The wings follow each other without gaps from the first span line to the last.
pub open spec fn wings_cover(wings: Seq<Range<usize>>, nr_span_lines: nat) -> bool {
    &&& wings.len() == 0 ==> nr_span_lines == 0
    &&& wings.len() > 0 ==> wings[0].start == 0 && wings[wings.len() - 1].end == nr_span_lines
    &&& forall|w: int| 0 < w < wings.len() ==> (#[trigger] wings[w]).start == wings[w - 1].end
}

/// The number of span lines in all wings together.
pub open spec fn nr_lines_in_wings(wings: Seq<Range<usize>>) -> int
    decreases wings.len(),
{
    if wings.len() == 0 {
        0
    } else {
        nr_lines_in_wings(wings.drop_last()) + (wings.last().end - wings.last().start)
    }
}

/// The span points of one wing: the start point of each of its lines, in order, and then the end
/// point of its last line.
pub open spec fn wing_span_points(lines: Seq<SpanLine>, wing: Range<usize>) -> Seq<SpatialVector> {
    Seq::new(
        (wing.end - wing.start + 1) as nat,
        |k: int|
            if k < wing.end - wing.start {
                lines[wing.start + k].start_point
            } else {
                lines[wing.end - 1].end_point
            },
    )
}

/// The span points of all wings, wing after wing.
pub open spec fn span_points_of(lines: Seq<SpanLine>, wings: Seq<Range<usize>>) -> Seq<
    SpatialVector,
>
    decreases wings.len(),
{
    if wings.len() == 0 {
        Seq::empty()
    } else {
        span_points_of(lines, wings.drop_last()) + wing_span_points(lines, wings.last())
    }
}

/// In a well-formed division no span line belongs to two wings.
pub proof fn lemma_wing_of_line_is_unique(
    wings: Seq<Range<usize>>,
    nr_span_lines: nat,
    v: int,
    w: int,
    index: int,
)
    requires
        wings_well_formed(wings, nr_span_lines),
        0 <= v < wings.len(),
        0 <= w < wings.len(),
        wing_contains(wings[v], index),
        wing_contains(wings[w], index),
    ensures
        v == w,
{
    if v < w {
        assert(wings[v].end <= wings[w].start);
    } else if w < v {
        assert(wings[w].end <= wings[v].start);
    }
}

/// Each wing has one span point more than it has span lines.
pub proof fn lemma_span_points_len(lines: Seq<SpanLine>, wings: Seq<Range<usize>>)
    requires
        forall|w: int| 0 <= w < wings.len() ==> (#[trigger] wings[w]).start <= wings[w].end,
    ensures
        span_points_of(lines, wings).len() == nr_lines_in_wings(wings) + wings.len(),
    decreases wings.len(),
{
    if wings.len() > 0 {
        let front = wings.drop_last();
        assert forall|w: int| 0 <= w < front.len() implies (#[trigger] front[w]).start
            <= front[w].end by {
            assert(front[w] == wings[w]);
        }
        lemma_span_points_len(lines, front);
        assert(wings.last() == wings[wings.len() - 1]);
    }
}

/// Wings that cover the list hold every span line exactly once.
pub proof fn lemma_covering_wings_hold_all_lines(wings: Seq<Range<usize>>, nr_span_lines: nat)
    requires
        wings_well_formed(wings, nr_span_lines),
        wings_cover(wings, nr_span_lines),
    ensures
        nr_lines_in_wings(wings) == nr_span_lines,
    decreases wings.len(),
{
    if wings.len() > 0 {
        let front = wings.drop_last();
        let last = wings[wings.len() - 1];
        assert(wings.last() == last);
        let front_lines = last.start as nat;
        assert forall|w: int| 0 <= w < front.len() implies (#[trigger] front[w]).start
            < front[w].end && front[w].end <= front_lines by {
            assert(front[w] == wings[w]);
            assert(wings[w].end <= wings[wings.len() - 1].start);
        }
        assert forall|v: int, w: int| 0 <= v < w < front.len() implies (#[trigger] front[v]).end
            <= (#[trigger] front[w]).start by {
            assert(front[v] == wings[v]);
            assert(front[w] == wings[w]);
        }
        if front.len() > 0 {
            assert(front[0] == wings[0]);
            assert(front[front.len() - 1] == wings[wings.len() - 2]);
            assert(wings[wings.len() - 1].start == wings[wings.len() - 1 - 1].end);
        }
        assert forall|w: int| 0 < w < front.len() implies (#[trigger] front[w]).start == front[w
            - 1].end by {
            assert(front[w] == wings[w]);
            assert(front[w - 1] == wings[w - 1]);
        }
        lemma_covering_wings_hold_all_lines(front, front_lines);
    }
}

/// Tells whether `wings` divides a list of `nr_span_lines` span lines properly.
pub fn check_wings(wings: &Vec<Range<usize>>, nr_span_lines: usize) -> (result: bool)
    ensures
        result == wings_well_formed(wings@, nr_span_lines as nat),
{
    let mut previous_end: usize = 0;
    let mut w: usize = 0;
    while w < wings.len()
        invariant
            w <= wings.len(),
            previous_end <= nr_span_lines,
            wings_well_formed(wings@.take(w as int), nr_span_lines as nat),
            previous_end == if w == 0 {
                0
            } else {
                wings[w - 1].end
            },
        decreases wings.len() - w,
    {
        let start = wings[w].start;
        let end = wings[w].end;
        if !(start < end && end <= nr_span_lines && previous_end <= start) {
            proof {
                if wings_well_formed(wings@, nr_span_lines as nat) {
                    assert(wings[w as int].start < wings[w as int].end);
                    if w > 0 {
                        assert(wings[w - 1].end <= wings[w as int].start);
                    }
                }
            }
            return false;
        }
        proof {
            let upto = wings@.take(w as int + 1);
            let front = wings@.take(w as int);
            assert forall|v: int| 0 <= v < upto.len() implies (#[trigger] upto[v]).start
                < upto[v].end && upto[v].end <= nr_span_lines by {
                if v < w {
                    assert(front[v] == upto[v]);
                }
            }
            assert forall|u: int, v: int| 0 <= u < v < upto.len() implies (#[trigger] upto[u]).end
                <= (#[trigger] upto[v]).start by {
                assert(upto[u] == wings[u]);
                if v < w {
                    assert(front[u] == upto[u]);
                    assert(front[v] == upto[v]);
                } else if u < w - 1 {
                    assert(front[u] == upto[u]);
                    assert(front[w - 1] == wings[w - 1]);
                }
            }
        }
        previous_end = end;
        w += 1;
    }
    assert(wings@.take(wings.len() as int) =~= wings@);
    true
}

/// Finds the wing that holds the span line `global_index`.
///
/// Returns the index of that wing, or `None` when the line belongs to no wing.
pub fn find_wing(wings: &Vec<Range<usize>>, global_index: usize) -> (result: Option<usize>)
    ensures
        match result {
            Some(w) => w < wings.len() && wing_contains(wings[w as int], global_index as int)
                && forall|v: int| 0 <= v < w ==> !wing_contains(#[trigger] wings[v], global_index as int),
            None => forall|v: int|
                0 <= v < wings.len() ==> !wing_contains(#[trigger] wings[v], global_index as int),
        },
{
    let mut w: usize = 0;
    while w < wings.len()
        invariant
            w <= wings.len(),
            forall|v: int| 0 <= v < w ==> !wing_contains(#[trigger] wings[v], global_index as int),
        decreases wings.len() - w,
    {
        if wings[w].start <= global_index && global_index < wings[w].end {
            return Some(w);
        }
        w += 1;
    }
    None
}

} // verus!
