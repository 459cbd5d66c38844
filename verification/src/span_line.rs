//! One spanwise strip of a wing.
use vstd::prelude::*;

use stormath::spatial_vector::SpatialVector;

use crate::vector::{mean_of_two, subtract_vectors, vector_difference, vector_mean};

verus! {

/// A directed segment from one end of a strip to the other.
#[derive(Clone, Copy, Debug)]
pub struct SpanLine {
    pub start_point: SpatialVector,
    pub end_point: SpatialVector,
}

impl SpanLine {
    /// The control point of the line: the mean of its two end points.
    pub open spec fn spec_ctrl_point(self) -> SpatialVector {
        vector_mean(self.start_point, self.end_point)
    }

    /// The vector from the start point to the end point.
    pub open spec fn spec_relative_vector(self) -> SpatialVector {
        vector_difference(self.end_point, self.start_point)
    }

    /// The point at which the flow is sampled and the force on the strip is applied.
    pub fn ctrl_point(&self) -> (result: SpatialVector)
        ensures
            result == self.spec_ctrl_point(),
    {
        mean_of_two(self.start_point, self.end_point)
    }

    /// The vector along the span of the strip, from start to end.
    pub fn relative_vector(&self) -> (result: SpatialVector)
        ensures
            result == self.spec_relative_vector(),
    {
        subtract_vectors(self.end_point, self.start_point)
    }
}

} // verus!
