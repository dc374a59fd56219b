use rbln_metrics_exporter::schedule::{NextStep, Schedule};

#[test]
fn schedule_anchors_first_deadline_at_start_plus_interval() {
    let s = Schedule::new(1_000, 5_000);
    assert_eq!(s.interval_ms, 5_000);
    assert_eq!(s.next_deadline_ms, 6_000);
}

#[test]
fn short_cycles_keep_the_cadence() {
    // Interval 5 s, anchored at t = 0. Each cycle finishes well inside the
    // interval; wakeups must land on 5000, 10000, 15000 — spaced by exactly
    // the interval, not by interval + cycle duration.
    let mut s = Schedule::new(0, 5_000);
    let mut starts: Vec<u64> = Vec::new();

    let mut now: u64 = 1_200; // first cycle took 1.2 s
    match s.next_step(false, now) {
        NextStep::RunAfter(d) => {
            now += d;
            starts.push(now);
        }
        NextStep::Stop => panic!("periodic mode must continue"),
    }
    now += 700; // second cycle took 0.7 s
    match s.next_step(false, now) {
        NextStep::RunAfter(d) => {
            now += d;
            starts.push(now);
        }
        NextStep::Stop => panic!("periodic mode must continue"),
    }
    now += 3_100; // third cycle took 3.1 s
    match s.next_step(false, now) {
        NextStep::RunAfter(d) => {
            now += d;
            starts.push(now);
        }
        NextStep::Stop => panic!("periodic mode must continue"),
    }

    assert_eq!(starts, vec![5_000, 10_000, 15_000]);
    assert_eq!(starts[1] - starts[0], 5_000);
    assert_eq!(starts[2] - starts[1], 5_000);
}

#[test]
fn overrun_cycle_restarts_immediately() {
    // The cycle ran past its deadline: the sleep is exactly zero, never a
    // negative or invalid duration.
    let s = Schedule::new(0, 1_000);
    assert_eq!(s.sleep_before_next(1_000), 0);
    assert_eq!(s.sleep_before_next(7_341), 0);
}

#[test]
fn sleep_covers_the_remainder_of_the_interval() {
    let s = Schedule::new(0, 1_000);
    assert_eq!(s.sleep_before_next(0), 1_000);
    assert_eq!(s.sleep_before_next(999), 1);
}

#[test]
fn advance_is_anchored_to_the_deadline_not_the_clock() {
    let mut s = Schedule::new(0, 60_000);
    s.advance();
    assert_eq!(s.next_deadline_ms, 120_000);
    s.advance();
    assert_eq!(s.next_deadline_ms, 180_000);
}

#[test]
fn advance_clamps_at_the_top_of_the_clock() {
    let mut s = Schedule { interval_ms: u64::MAX, next_deadline_ms: u64::MAX - 1 };
    s.advance();
    assert_eq!(s.next_deadline_ms, u64::MAX);
}

#[test]
fn oneshot_stops_after_a_single_cycle() {
    let mut s = Schedule::new(0, 5_000);
    let before = s;
    // Whatever the clock says and however the cycle went, one-shot mode
    // never schedules a second cycle.
    assert_eq!(s.next_step(true, 100), NextStep::Stop);
    assert_eq!(s.next_step(true, 1_000_000), NextStep::Stop);
    assert_eq!(s, before);
}

#[test]
fn periodic_mode_schedules_the_next_cycle() {
    let mut s = Schedule::new(0, 2_000);
    assert_eq!(s.next_step(false, 500), NextStep::RunAfter(1_500));
    assert_eq!(s.next_deadline_ms, 4_000);
}
