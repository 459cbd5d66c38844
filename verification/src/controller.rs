//! When a controller of the wings computes new output.
//!
//! A controller is called once for every time step. It stays inactive until the time at which
//! it is set to start. From then on it computes new output at its first call and at every call
//! that falls on its update period.
use vstd::arithmetic::div_mod::{
    lemma_add_mod_noop_right, lemma_mod_bound, lemma_mod_self_0, lemma_small_mod,
};
use vstd::prelude::*;

verus! {

/// The position of a controller in its update period.
#[derive(Clone, Copy, Debug, PartialEq, Eq, Structural)]
pub struct UpdateSchedule {
    /// The length of the update period, in calls.
    pub time_steps_between_updates: usize,
    /// The number of calls made so far, counted within the update period.
    pub time_step_index: usize,
    /// Whether a call has been made at or after the start time.
    pub activated: bool,
}

impl UpdateSchedule {
    /// The period has at least one call, and the index lies within it.
    pub open spec fn well_formed(&self) -> bool {
        self.time_step_index < self.time_steps_between_updates
    }

    /// Whether a call computes new output: never before the start time; after it, at the first
    /// call and at every call at the beginning of a period.
    pub open spec fn update_is_due(&self, initialization_done: bool) -> bool {
        initialization_done && (!self.activated || self.time_step_index == 0)
    }

    /// The schedule after a call.
    pub open spec fn after_call(&self, initialization_done: bool) -> UpdateSchedule {
        UpdateSchedule {
            time_steps_between_updates: self.time_steps_between_updates,
            time_step_index: if self.time_step_index + 1 == self.time_steps_between_updates {
                0
            } else {
                (self.time_step_index + 1) as usize
            },
            activated: self.activated || initialization_done,
        }
    }

    /// The schedule after `nr_calls` calls that were all made at or after the start time.
    pub open spec fn after_active_calls(&self, nr_calls: nat) -> UpdateSchedule
        decreases nr_calls,
    {
        if nr_calls == 0 {
            *self
        } else {
            self.after_active_calls((nr_calls - 1) as nat).after_call(true)
        }
    }

    /// A schedule before its first call. Returns `None` for a period of no calls.
    pub fn new(time_steps_between_updates: usize) -> (result: Option<UpdateSchedule>)
        ensures
            result == if time_steps_between_updates > 0 {
                Some(
                    UpdateSchedule {
                        time_steps_between_updates,
                        time_step_index: 0,
                        activated: false,
                    },
                )
            } else {
                None
            },
            result matches Some(schedule) ==> schedule.well_formed(),
    {
        if time_steps_between_updates == 0 {
            None
        } else {
            Some(UpdateSchedule { time_steps_between_updates, time_step_index: 0, activated: false })
        }
    }

    /// Counts one call and tells whether it computes new output. `initialization_done` says
    /// whether the call is made at or after the start time.
    pub fn register_call(&mut self, initialization_done: bool) -> (due: bool)
        requires
            old(self).well_formed(),
        ensures
            due == old(self).update_is_due(initialization_done),
            *final(self) == old(self).after_call(initialization_done),
            final(self).well_formed(),
    {
        let due = initialization_done && (!self.activated || self.time_step_index == 0);
        if self.time_step_index + 1 == self.time_steps_between_updates {
            self.time_step_index = 0;
        } else {
            self.time_step_index = self.time_step_index + 1;
        }
        self.activated = self.activated || initialization_done;
        due
    }

    /// After `nr_calls` active calls the index has moved on by `nr_calls`, around the period.
    pub proof fn lemma_index_after_active_calls(self, nr_calls: nat)
        requires
            self.well_formed(),
        ensures
            self.after_active_calls(nr_calls).well_formed(),
            self.after_active_calls(nr_calls).time_steps_between_updates
                == self.time_steps_between_updates,
            self.after_active_calls(nr_calls).time_step_index == (self.time_step_index + nr_calls)
                % (self.time_steps_between_updates as int),
            nr_calls > 0 ==> self.after_active_calls(nr_calls).activated,
        decreases nr_calls,
    {
        let period = self.time_steps_between_updates as int;
        if nr_calls == 0 {
            lemma_small_mod(self.time_step_index as nat, period as nat);
        } else {
            self.lemma_index_after_active_calls((nr_calls - 1) as nat);
            let a = self.time_step_index + nr_calls - 1;
            let r = a % period;
            lemma_mod_bound(a, period);
            lemma_add_mod_noop_right(1, a, period);
            assert((1 + r) % period == (a + 1) % period);
            if r + 1 == period {
                lemma_mod_self_0(period);
            } else {
                lemma_small_mod((r + 1) as nat, period as nat);
            }
        }
    }

    /// Once active, a controller computes new output exactly at every call that falls on its
    /// update period: after `nr_calls` active calls the next call is due if and only if the
    /// index, moved on by `nr_calls`, is a multiple of the period.
    pub proof fn lemma_active_updates_are_periodic(self, nr_calls: nat)
        requires
            self.well_formed(),
            nr_calls > 0,
        ensures
            self.after_active_calls(nr_calls).update_is_due(true) <==> (self.time_step_index
                + nr_calls) % (self.time_steps_between_updates as int) == 0,
    {
        self.lemma_index_after_active_calls(nr_calls);
    }
}

} // verus!
