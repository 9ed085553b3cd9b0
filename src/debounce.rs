//! Coalesces bursts of render requests into one trailing render.
use vstd::prelude::*;

use crate::action::Action;

verus! {

/// The state of the render debouncer: whether a delayed render is pending.
pub struct Debouncer {
    pub debouncing: bool,
}

/// How many delayed renders `n` requests schedule, arriving one after the
/// other while no delayed render fires, starting with one pending or not.
pub open spec fn scheduled(pending: bool, n: nat) -> nat
    decreases n,
{
    if n == 0 {
        0
    } else {
        (if pending {
            0nat
        } else {
            1nat
        }) + scheduled(true, (n - 1) as nat)
    }
}

impl Debouncer {
    pub fn new() -> (d: Debouncer)
        ensures
            !d.debouncing,
    {
        Debouncer { debouncing: false }
    }

    /// Takes a render request. Returns whether a delayed render must be
    /// scheduled: only when none is pending already.
    pub fn request(&mut self) -> (schedule: bool)
        ensures
            schedule == !old(self).debouncing,
            final(self).debouncing,
    {
        let schedule = !self.debouncing;
        self.debouncing = true;
        schedule
    }

    /// The delayed render fires: it renders and clears the pending mark.
    pub fn fire(&mut self) -> (r: Action)
        ensures
            r is Render,
            !final(self).debouncing,
    {
        self.debouncing = false;
        Action::Render
    }
}

/// A burst of one or more render requests that arrive before the delayed
/// render fires schedules exactly one delayed render, and so yields exactly
/// one render.
pub proof fn burst_renders_once(n: nat)
    requires
        n >= 1,
    ensures
        scheduled(false, n) == 1,
{
    assert(scheduled(false, n) == 1 + scheduled(true, (n - 1) as nat));
    burst_while_pending_schedules_none((n - 1) as nat);
}

proof fn burst_while_pending_schedules_none(n: nat)
    ensures
        scheduled(true, n) == 0,
    decreases n,
{
    if n > 0 {
        burst_while_pending_schedules_none((n - 1) as nat);
    }
}

} // verus!
