//! Spatial vectors, as `stormath` provides them.
//!
//! A vector is opaque here: it is carried around and handed back to `stormath`, and what the
//! arithmetic of that crate returns is referred to by name. Two vectors are the same value when
//! their components are the same numbers, component by component, where every NaN counts as one
//! and the same value.
use vstd::prelude::*;

use stormath::spatial_vector::SpatialVector;

verus! {

#[verifier::external_type_specification]
#[verifier::external_body]
pub struct ExSpatialVector(SpatialVector);

/// The vector that `+` gives for two spatial vectors: the component-wise sum.
pub uninterp spec fn vector_sum(a: SpatialVector, b: SpatialVector) -> SpatialVector;

/// The vector that `-` gives for two spatial vectors: the component-wise difference.
pub uninterp spec fn vector_difference(a: SpatialVector, b: SpatialVector) -> SpatialVector;

/// The vector that `stormath::statistics::mean` gives for the two vectors `a` and `b`, in that
/// order: their sum divided by two.
pub uninterp spec fn vector_mean(a: SpatialVector, b: SpatialVector) -> SpatialVector;

/// The vector that `SpatialVector::project_on_plane` gives for `vector` and the plane with the
/// normal `plane_normal`: the vector without its part along the normal.
pub uninterp spec fn projected_on_plane(vector: SpatialVector, plane_normal: SpatialVector) -> SpatialVector;

/// Adds two vectors with the `Add` implementation of `SpatialVector`, which adds component by
/// component. Nothing but the name of the result is claimed.
#[verifier::external_body]
pub(crate) fn add_vectors(a: SpatialVector, b: SpatialVector) -> (result: SpatialVector)
    ensures
        result == vector_sum(a, b),
{
    a + b
}

/// Subtracts `b` from `a` with the `Sub` implementation of `SpatialVector`, which subtracts
/// component by component. Nothing but the name of the result is claimed.
#[verifier::external_body]
pub(crate) fn subtract_vectors(a: SpatialVector, b: SpatialVector) -> (result: SpatialVector)
    ensures
        result == vector_difference(a, b),
{
    a - b
}

/// Calls `stormath::statistics::mean` on the two vectors. That function starts from the first
/// element, adds the others in order and divides by the number of elements; with two elements it
/// cannot fail. Nothing but the name of the result is claimed.
#[verifier::external_body]
pub(crate) fn mean_of_two(a: SpatialVector, b: SpatialVector) -> (result: SpatialVector)
    ensures
        result == vector_mean(a, b),
{
    stormath::statistics::mean(&[a, b])
}

/// Calls `SpatialVector::project_on_plane`, which subtracts from the vector its projection on
/// the normal; the normal need not have unit length, and a normal of length zero leaves the
/// vector as it is. Nothing but the name of the result is claimed.
#[verifier::external_body]
pub(crate) fn project_on_plane(vector: SpatialVector, plane_normal: SpatialVector) -> (result: SpatialVector)
    ensures
        result == projected_on_plane(vector, plane_normal),
{
    vector.project_on_plane(plane_normal)
}

/// A new list with the same vectors in the same order.
pub fn copy_vectors(vectors: &Vec<SpatialVector>) -> (result: Vec<SpatialVector>)
    ensures
        result@ == vectors@,
{
    let n = vectors.len();
    let mut result: Vec<SpatialVector> = Vec::new();
    let mut i: usize = 0;
    while i < n
        invariant
            n == vectors@.len(),
            i <= n,
            result@ == vectors@.take(i as int),
        decreases n - i,
    {
        result.push(vectors[i]);
        assert(result@ =~= vectors@.take(i + 1));
        i += 1;
    }
    assert(vectors@.take(n as int) =~= vectors@);
    result
}

} // verus!
