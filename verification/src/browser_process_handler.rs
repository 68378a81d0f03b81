//! The handler through which the engine, in the privileged process, asks to
//! be given time.

use crate::ref_count::{RefCount, RefCounted};
use crate::schedule::{rescheduled, Schedule, ScheduleState};
use vstd::prelude::*;

verus! {

/// The handler of the privileged process's callbacks.
#[derive(Debug)]
pub struct BrowserProcessHandler {
    ref_count: RefCount,
    schedule: Schedule,
}

/// The handler as a mathematical value.
pub struct BrowserProcessState {
    /// The number of owners.
    pub owners: nat,
    /// When the engine next wants to be given time.
    pub schedule: ScheduleState,
}

impl View for BrowserProcessHandler {
    type V = BrowserProcessState;

    closed spec fn view(&self) -> BrowserProcessState {
        BrowserProcessState { owners: self.ref_count.count(), schedule: self.schedule@ }
    }
}

impl BrowserProcessHandler {
    /// Adds an owner.
    pub fn inc_ref(&mut self)
        requires
            1 <= old(self)@.owners < usize::MAX,
        ensures
            final(self)@ == (BrowserProcessState { owners: old(self)@.owners + 1, ..old(self)@ }),
    {
        self.ref_count.add_ref();
    }

    /// The schedule that the handler writes.
    pub fn schedule(&self) -> (schedule: &Schedule)
        ensures
            schedule@ == self@.schedule,
    {
        &self.schedule
    }

    /// The schedule that the handler writes, to be changed in place.
    pub fn schedule_mut(&mut self) -> (schedule: &mut Schedule)
        ensures
            schedule@ == old(self)@.schedule,
            final(self)@ == (BrowserProcessState { schedule: final(schedule)@, ..old(self)@ }),
    {
        &mut self.schedule
    }

    /// Takes the engine's request to be given time within `delay_ms` from
    /// now.
    pub fn on_schedule_message_pump_work(&mut self, delay_ms: i64)
        ensures
            final(self)@.owners == old(self)@.owners,
            rescheduled(old(self)@.schedule, final(self)@.schedule, delay_ms),
    {
        self.schedule.schedule_work(delay_ms);
    }
}

/// A new handler with one owner, which writes `schedule`.
pub fn allocate(schedule: Schedule) -> (handler: BrowserProcessHandler)
    ensures
        handler@ == (BrowserProcessState { owners: 1, schedule: schedule@ }),
{
    BrowserProcessHandler { ref_count: RefCount::new(), schedule }
}

impl RefCounted for BrowserProcessHandler {
    open spec fn ref_count(&self) -> nat {
        self@.owners
    }

    fn owners(&self) -> (owners: usize) {
        self.ref_count.get()
    }

    fn add_ref(&mut self)
        ensures
            final(self)@ == (BrowserProcessState { owners: old(self)@.owners + 1, ..old(self)@ }),
    {
        self.ref_count.add_ref();
    }

    fn release(&mut self) -> (freed: bool)
        ensures
            final(self)@ == (BrowserProcessState {
                owners: (old(self)@.owners - 1) as nat,
                ..old(self)@
            }),
    {
        self.ref_count.release()
    }

    fn has_one_ref(&self) -> (one: bool) {
        self.ref_count.has_one_ref()
    }

    fn has_at_least_one_ref(&self) -> (owned: bool) {
        self.ref_count.has_at_least_one_ref()
    }
}

} // verus!
