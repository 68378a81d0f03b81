use cef_client::browser_process_handler;
use cef_client::ref_count::RefCounted;
use cef_client::schedule::{millis_from_start, Schedule, MAX_DELAY_MS};

#[test]
fn a_new_schedule_is_due_at_once() {
    let schedule = Schedule::new();
    assert_eq!(schedule.next_work_time(), 0);
    assert!(schedule.should_do_work_at(0));
    assert!(schedule.should_do_work_at(1));
    assert!(!schedule.should_do_work_at(-1));
}

#[test]
fn due_time_is_now_plus_the_delay() {
    let mut schedule = Schedule::new();
    schedule.schedule_work_at(100, 5);
    assert_eq!(schedule.next_work_time(), 105);
    schedule.schedule_work_at(100, 0);
    assert_eq!(schedule.next_work_time(), 100);
    schedule.schedule_work_at(100, 16);
    assert_eq!(schedule.next_work_time(), 116);
}

#[test]
fn delay_is_held_to_sixteen_milliseconds() {
    assert_eq!(MAX_DELAY_MS, 16);
    let mut schedule = Schedule::new();
    schedule.schedule_work_at(1000, 17);
    assert_eq!(schedule.next_work_time(), 1016);
    schedule.schedule_work_at(1000, i64::MAX);
    assert_eq!(schedule.next_work_time(), 1016);
}

#[test]
fn a_negative_delay_is_taken_as_it_is() {
    let mut schedule = Schedule::new();
    schedule.schedule_work_at(1000, -250);
    assert_eq!(schedule.next_work_time(), 750);
    schedule.schedule_work_at(0, i64::MIN);
    assert_eq!(schedule.next_work_time(), i64::MIN);
}

#[test]
fn a_later_request_overwrites_an_earlier_one() {
    let mut schedule = Schedule::new();
    schedule.schedule_work_at(10, 16);
    schedule.schedule_work_at(12, 1);
    assert_eq!(schedule.next_work_time(), 13);
}

#[test]
fn work_is_due_from_the_due_time_on() {
    let mut schedule = Schedule::new();
    schedule.schedule_work_at(200, 10);
    assert!(!schedule.should_do_work_at(200));
    assert!(!schedule.should_do_work_at(209));
    assert!(schedule.should_do_work_at(210));
    assert!(schedule.should_do_work_at(211));
}

#[test]
fn the_clock_sets_a_due_time_within_the_longest_delay() {
    let mut schedule = Schedule::new();
    let before = schedule.elapsed_millis();
    schedule.schedule_work(1000);
    let after = schedule.elapsed_millis();
    if before >= 0 && after >= before {
        assert!(schedule.next_work_time() >= before + 16);
        assert!(schedule.next_work_time() <= after + 16);
        assert!(!schedule.should_do_work_at(before));
    }
}

#[test]
fn the_handler_writes_its_schedule() {
    let mut handler = browser_process_handler::allocate(Schedule::new());
    assert_eq!(handler.owners(), 1);
    handler.schedule_mut().schedule_work_at(40, 2);
    assert_eq!(handler.schedule().next_work_time(), 42);
    let before = handler.schedule().elapsed_millis();
    handler.on_schedule_message_pump_work(0);
    let after = handler.schedule().elapsed_millis();
    if before >= 0 && after >= before {
        assert!(handler.schedule().next_work_time() >= before);
        assert!(handler.schedule().next_work_time() <= after);
    }
    handler.inc_ref();
    assert_eq!(handler.owners(), 2);
}

#[test]
fn a_clock_reading_is_signed_and_held_to_the_range() {
    assert_eq!(millis_from_start(true, 0), 0);
    assert_eq!(millis_from_start(false, 0), 0);
    assert_eq!(millis_from_start(true, 1500), 1500);
    assert_eq!(millis_from_start(false, 1500), -1500);
    assert_eq!(millis_from_start(true, i64::MAX as u128), i64::MAX);
    assert_eq!(millis_from_start(false, i64::MAX as u128), -i64::MAX);
    assert_eq!(millis_from_start(true, i64::MAX as u128 + 1), i64::MAX);
    assert_eq!(millis_from_start(false, i64::MAX as u128 + 1), -i64::MAX);
    assert_eq!(millis_from_start(true, u128::MAX), i64::MAX);
    assert_eq!(millis_from_start(false, u128::MAX), -i64::MAX);
}

#[test]
fn a_request_by_the_clock_replaces_what_was_stored() {
    let mut schedule = Schedule::new();
    schedule.schedule_work_at(-i64::MAX, -1);
    assert_eq!(schedule.next_work_time(), i64::MIN);
    schedule.schedule_work(0);
    assert!(schedule.next_work_time() > i64::MIN);
    let reading = schedule.elapsed_millis();
    assert!(reading >= -i64::MAX);
}
