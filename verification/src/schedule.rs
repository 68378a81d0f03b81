//! The scheduler bridge: when the engine next wants to be given time.
//!
//! The engine asks to be called again within some delay; the host's message
//! loop asks on every turn whether that time has come. Times are counted in
//! milliseconds from the moment the schedule was made. A request overwrites
//! the one before it, and no request is honoured later than
//! [`MAX_DELAY_MS`] after it was made.
//!
//! A request takes the schedule by exclusive reference, so a write never runs
//! beside another write or a read; a host that lets the engine write from
//! another thread keeps the schedule behind a lock.

use std::time::SystemTime;
use vstd::prelude::*;

verus! {

/// The longest delay, in milliseconds, that a request is granted.
pub const MAX_DELAY_MS: i64 = 16;

/// A point on the system clock.
#[verifier::external_type_specification]
#[verifier::external_body]
pub struct ExSystemTime(std::time::SystemTime);

/// What `duration_since` returns when the earlier time is in fact the later.
#[verifier::external_type_specification]
#[verifier::external_body]
pub struct ExSystemTimeError(std::time::SystemTimeError);

/// `SystemTime::now`: the current reading of the system clock. Nothing is
/// claimed of it.
pub assume_specification[ std::time::SystemTime::now ]() -> std::time::SystemTime;

/// `SystemTime::duration_since`: the time from `earlier` to `t`, or an error
/// if `earlier` is the later of the two. Nothing is claimed of either.
pub assume_specification[ std::time::SystemTime::duration_since ](
    t: &std::time::SystemTime,
    earlier: std::time::SystemTime,
) -> Result<std::time::Duration, std::time::SystemTimeError>;

/// `SystemTimeError::duration`: by how much the earlier time was the later.
/// Nothing is claimed of it.
pub assume_specification[ std::time::SystemTimeError::duration ](
    e: &std::time::SystemTimeError,
) -> std::time::Duration;

/// `Duration::as_millis`: the whole milliseconds in a duration. Nothing is
/// claimed of their number.
pub assume_specification[ std::time::Duration::as_millis ](d: &std::time::Duration) -> u128;

/// The delay that a request for `delay_ms` is granted.
pub open spec fn granted_delay(delay_ms: i64) -> int {
    if delay_ms <= MAX_DELAY_MS {
        delay_ms as int
    } else {
        MAX_DELAY_MS as int
    }
}

/// The time at which work is due after a request for `delay_ms` made at
/// `now_ms`.
pub open spec fn due_time(now_ms: i64, delay_ms: i64) -> int {
    now_ms + granted_delay(delay_ms)
}

/// Whether a due time can be stored.
pub open spec fn is_storable(time_ms: int) -> bool {
    i64::MIN <= time_ms <= i64::MAX
}

/// The time, in milliseconds from the start, at which the clock stands
/// `millis` milliseconds after the start, or before it: what `i64` holds of
/// it, with anything further away counted as `i64::MAX` milliseconds away.
pub open spec fn signed_millis(after_start: bool, millis: u128) -> int {
    let held: int = if millis <= i64::MAX {
        millis as int
    } else {
        i64::MAX as int
    };
    if after_start {
        held
    } else {
        -held
    }
}

/// Whether `now_ms` is a time that the clock can be read as.
pub open spec fn is_reading(now_ms: i64) -> bool {
    exists|after_start: bool, millis: u128| now_ms == #[trigger] signed_millis(after_start, millis)
}

/// The time, in milliseconds from the start, at which the clock stands
/// `millis` milliseconds after the start, or before it.
pub fn millis_from_start(after_start: bool, millis: u128) -> (now_ms: i64)
    ensures
        now_ms == signed_millis(after_start, millis),
        is_reading(now_ms),
{
    let held: i64 = if millis <= 0x7FFF_FFFF_FFFF_FFFF {
        millis as i64
    } else {
        i64::MAX
    };
    let now_ms: i64 = if after_start {
        held
    } else {
        -held
    };
    assert(now_ms == signed_millis(after_start, millis));
    now_ms
}

/// Whether work that is due at `due_ms` is due at `now_ms`.
pub open spec fn is_due(now_ms: i64, due_ms: i64) -> bool {
    now_ms >= due_ms
}

/// Work is never due later than [`MAX_DELAY_MS`] after the request, however
/// long the delay asked for; a delay up to that bound is granted as it is.
pub proof fn lemma_due_time_bounds(now_ms: i64, delay_ms: i64)
    ensures
        due_time(now_ms, delay_ms) <= now_ms + MAX_DELAY_MS,
        delay_ms <= MAX_DELAY_MS ==> due_time(now_ms, delay_ms) == now_ms + delay_ms,
        delay_ms >= MAX_DELAY_MS ==> due_time(now_ms, delay_ms) == now_ms + MAX_DELAY_MS,
{
}

/// After a request made at `now_ms`, work is due at a time `t` exactly if `t`
/// is no earlier than `now_ms` plus the smaller of the delay and
/// [`MAX_DELAY_MS`].
pub proof fn lemma_due_after_request(now_ms: i64, delay_ms: i64, t: i64)
    requires
        is_storable(due_time(now_ms, delay_ms)),
    ensures
        is_due(t, due_time(now_ms, delay_ms) as i64) <==> t >= now_ms + (if delay_ms
            <= MAX_DELAY_MS {
            delay_ms
        } else {
            MAX_DELAY_MS
        }),
{
}

/// When the engine next wants to be given time.
#[derive(Debug)]
pub struct Schedule {
    next_work_time: i64,
    start_time: SystemTime,
}

/// A schedule as a mathematical value.
pub struct ScheduleState {
    /// The time at which work is due, in milliseconds from the start.
    pub next_work_time: i64,
    /// The clock reading from which times are counted.
    pub start_time: SystemTime,
}

/// The schedule after a request for `delay_ms` made at `now_ms`: the due
/// time is set by that request, or, where that time cannot be stored, the
/// schedule is as before.
pub open spec fn after_request(before: ScheduleState, now_ms: i64, delay_ms: i64) -> ScheduleState {
    if is_storable(due_time(now_ms, delay_ms)) {
        ScheduleState { next_work_time: due_time(now_ms, delay_ms) as i64, ..before }
    } else {
        before
    }
}

/// What a request for `delay_ms`, made now, does to a schedule: what it does
/// when made at the time that the clock reads.
pub open spec fn rescheduled(before: ScheduleState, after: ScheduleState, delay_ms: i64) -> bool {
    exists|now_ms: i64|
        is_reading(now_ms) && after == #[trigger] after_request(before, now_ms, delay_ms)
}

impl View for Schedule {
    type V = ScheduleState;

    closed spec fn view(&self) -> ScheduleState {
        ScheduleState { next_work_time: self.next_work_time, start_time: self.start_time }
    }
}

impl Schedule {
    /// A schedule that starts now, with work due at once.
    pub fn new() -> (schedule: Schedule)
        ensures
            schedule@.next_work_time == 0,
    {
        Schedule { next_work_time: 0, start_time: SystemTime::now() }
    }

    /// The time at which work is due, in milliseconds from the start.
    pub fn next_work_time(&self) -> (due_ms: i64)
        ensures
            due_ms == self@.next_work_time,
    {
        self.next_work_time
    }

    /// The milliseconds from the start to now, by the system clock: negative
    /// if the clock reads earlier than at the start, and held to what `i64`
    /// holds as [`signed_millis`] says.
    pub fn elapsed_millis(&self) -> (now_ms: i64)
        ensures
            is_reading(now_ms),
    {
        match SystemTime::now().duration_since(self.start_time) {
            Ok(elapsed) => millis_from_start(true, elapsed.as_millis()),
            Err(error) => millis_from_start(false, error.duration().as_millis()),
        }
    }

    /// Records a request, made at `now_ms`, for work within `delay_ms`.
    pub fn schedule_work_at(&mut self, now_ms: i64, delay_ms: i64)
        requires
            is_storable(due_time(now_ms, delay_ms)),
        ensures
            final(self)@ == (ScheduleState {
                next_work_time: due_time(now_ms, delay_ms) as i64,
                ..old(self)@
            }),
    {
        let granted: i64 = if delay_ms <= MAX_DELAY_MS {
            delay_ms
        } else {
            MAX_DELAY_MS
        };
        self.next_work_time = now_ms + granted;
    }

    /// Whether work is due at `now_ms`.
    pub fn should_do_work_at(&self, now_ms: i64) -> (due: bool)
        ensures
            due == is_due(now_ms, self@.next_work_time),
    {
        now_ms >= self.next_work_time
    }

    /// Records a request, made now, for work within `delay_ms`: the due time
    /// is set by the time that the clock reads, and only where that due time
    /// cannot be stored does the schedule stay as it is.
    pub fn schedule_work(&mut self, delay_ms: i64)
        ensures
            rescheduled(old(self)@, final(self)@, delay_ms),
    {
        let now_ms: i64 = self.elapsed_millis();
        let granted: i64 = if delay_ms <= MAX_DELAY_MS {
            delay_ms
        } else {
            MAX_DELAY_MS
        };
        if now_ms.checked_add(granted).is_some() {
            self.schedule_work_at(now_ms, delay_ms);
        }
        assert(self@ == after_request(old(self)@, now_ms, delay_ms));
    }

    /// Whether work is due now.
    pub fn should_do_work(&self) -> (due: bool)
        ensures
            exists|now_ms: i64| due == #[trigger] is_due(now_ms, self@.next_work_time),
    {
        let now_ms: i64 = self.elapsed_millis();
        self.should_do_work_at(now_ms)
    }
}

} // verus!
