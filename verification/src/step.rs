//! What a time step of a simulation does with the flow it is given.
//!
//! A model waits until it has been built and the iterations before its start have passed. From
//! then on it solves for the circulation, unless there is no flow at any control point: with no
//! flow the solver is passed by and forces of zero are reported.
use vstd::prelude::*;

verus! {

/// What a time step does.
#[derive(Clone, Copy, Debug, PartialEq, Eq, Structural)]
pub enum StepAction {
    /// Nothing: the model is not in use yet.
    Wait,
    /// No flow anywhere: all forces and moments are zero, and the solver is not called.
    ReportZeroForces,
    /// The circulation is solved for and the forces are computed from it.
    Solve,
}

/// Decides what a time step does.
///
/// `any_flow` says whether the velocity differs from zero at one control point at least.
pub fn step_action(
    model_is_built: bool,
    iterations_completed: usize,
    iterations_before_building_model: usize,
    any_flow: bool,
) -> (action: StepAction)
    ensures
        action == if !(model_is_built && iterations_completed >= iterations_before_building_model) {
            StepAction::Wait
        } else if any_flow {
            StepAction::Solve
        } else {
            StepAction::ReportZeroForces
        },
{
    if !(model_is_built && iterations_completed >= iterations_before_building_model) {
        StepAction::Wait
    } else if any_flow {
        StepAction::Solve
    } else {
        StepAction::ReportZeroForces
    }
}

/// The number of time steps made once one more is made. The count stops at the largest number
/// that it can hold.
pub fn iterations_after_step(iterations_completed: usize) -> (next: usize)
    ensures
        next == if iterations_completed < usize::MAX {
            iterations_completed + 1
        } else {
            usize::MAX as int
        },
{
    if iterations_completed < usize::MAX {
        iterations_completed + 1
    } else {
        iterations_completed
    }
}

} // verus!
