use spsc_pipeline::counters::StageCounters;
use spsc_pipeline::counters::percent_of;
use spsc_pipeline::counters::utilization_sample;

#[test]
fn accumulators_start_at_zero() {
    let c = StageCounters::new();
    assert_eq!(c.idle(), 0);
    assert_eq!(c.blocked(), 0);
}

#[test]
fn idle_waits_accumulate_exactly() {
    // A consumer whose upstream withholds input for ~50 ms, observed as
    // five 10 ms retry sleeps, ends up with exactly those 50 ms of idle
    // time and no blocked time.
    let mut c = StageCounters::new();
    for _ in 0..5 {
        c.record_idle(10);
    }
    assert_eq!(c.idle(), 50);
    assert_eq!(c.blocked(), 0);
}

#[test]
fn blocked_waits_accumulate_exactly() {
    let mut c = StageCounters::new();
    c.record_blocked(30);
    c.record_blocked(12);
    assert_eq!(c.blocked(), 42);
    assert_eq!(c.idle(), 0);
    c.record_idle(7);
    assert_eq!(c.blocked(), 42);
    assert_eq!(c.idle(), 7);
}

#[test]
fn accumulators_saturate_instead_of_wrapping() {
    let mut c = StageCounters::new();
    c.record_idle(u64::MAX - 3);
    c.record_idle(10);
    assert_eq!(c.idle(), u64::MAX);
    c.record_idle(1);
    assert_eq!(c.idle(), u64::MAX);
}

#[test]
fn percent_is_exact_integer_share() {
    assert_eq!(percent_of(250, 1000), 25);
    assert_eq!(percent_of(0, 7), 0);
    assert_eq!(percent_of(7, 7), 100);
    assert_eq!(percent_of(1, 3), 33);
}

#[test]
fn utilization_sample_guards_its_inputs() {
    let mut c = StageCounters::new();
    c.record_idle(40);
    c.record_blocked(10);
    assert_eq!(utilization_sample(&c, 100), Some((40, 10)));
    // No time elapsed yet: nothing meaningful to report.
    assert_eq!(utilization_sample(&c, 0), None);
    // An accumulator ahead of the clock that measures it.
    assert_eq!(utilization_sample(&c, 20), None);
}
