use mavis_lib::matcher::{InputFault, SearchError};
use mavis_lib::poller::{tick_outcome, PollAction, Poller, Throttle, TickOutcome, WaitError};
use mavis_lib::region::DisplayArea;

const MS: u64 = 1_000_000;

/// Drives a wait against a clock that only the test advances. Each tick
/// takes `tick_cost` nanoseconds, each yield `yield_cost`; `stub` gives the
/// outcome of the tick with the given number, counted from one. Returns
/// the result, the number of ticks and the time at which the wait ended.
fn wait(
    ticks_per_second: u8,
    max_wait: u64,
    tick_cost: u64,
    yield_cost: u64,
    stub: &dyn Fn(u32) -> TickOutcome,
) -> (Result<(), WaitError>, u32, u64) {
    let mut clock: u64 = 0;
    let mut ticks: u32 = 0;
    let mut poller = match Poller::begin(ticks_per_second, max_wait) {
        Ok(poller) => poller,
        Err(e) => return (Err(e), ticks, clock),
    };
    let mut action = poller.action();
    loop {
        action = match action {
            PollAction::Capture => {
                let started = clock;
                ticks += 1;
                clock += tick_cost;
                poller.tick(started, clock, stub(ticks))
            }
            PollAction::Yield => {
                clock += yield_cost;
                poller.yielded(clock)
            }
            PollAction::Sleep { nanos } => {
                clock += nanos;
                poller.yielded(clock)
            }
            PollAction::Finish(result) => return (result, ticks, clock),
        };
    }
}

#[test]
fn absent_pattern_times_out_after_the_deadline() {
    let (result, ticks, clock) = wait(10, 200 * MS, MS, MS / 10, &|_| TickOutcome::Absent);
    assert_eq!(result, Err(WaitError::TimedOut));
    assert!(clock >= 200 * MS);
    assert!((1..=3).contains(&ticks));
    assert_eq!(ticks, 3);
    assert_eq!(clock, 201 * MS);
}

#[test]
fn ticks_that_take_no_time_are_still_bounded() {
    let (result, ticks, clock) = wait(10, 200 * MS, 0, MS, &|_| TickOutcome::Absent);
    assert_eq!(result, Err(WaitError::TimedOut));
    assert_eq!(ticks, 4);
    assert_eq!(clock, 300 * MS);
    let (result, ticks, clock) = wait(10, 0, 0, MS, &|_| TickOutcome::Absent);
    assert_eq!(result, Err(WaitError::TimedOut));
    assert_eq!(ticks, 2);
    assert_eq!(clock, 100 * MS);
}

#[test]
fn sleeping_wait_keeps_the_same_pace() {
    let mut clock: u64 = 0;
    let mut ticks: u32 = 0;
    let mut poller = Poller::begin_with(10, 200 * MS, Throttle::Sleep).unwrap();
    let mut action = poller.action();
    let result = loop {
        action = match action {
            PollAction::Capture => {
                let started = clock;
                ticks += 1;
                clock += MS;
                poller.tick(started, clock, TickOutcome::Absent)
            }
            PollAction::Sleep { nanos } => {
                assert_eq!(nanos, 99 * MS);
                clock += nanos;
                poller.yielded(clock)
            }
            PollAction::Yield => panic!("a sleeping wait does not yield"),
            PollAction::Finish(result) => break result,
        };
    };
    assert_eq!(result, Err(WaitError::TimedOut));
    assert_eq!(ticks, 3);
    assert_eq!(clock, 201 * MS);
}

#[test]
fn slow_ticks_time_out_without_throttling() {
    let (result, ticks, clock) = wait(10, 200 * MS, 150 * MS, MS, &|_| TickOutcome::Absent);
    assert_eq!(result, Err(WaitError::TimedOut));
    assert_eq!(ticks, 2);
    assert_eq!(clock, 300 * MS);
}

#[test]
fn match_on_third_tick_ends_the_wait_early() {
    let stub = |n: u32| if n == 3 { TickOutcome::Matched } else { TickOutcome::Absent };
    let (result, ticks, clock) = wait(10, 10_000 * MS, MS, MS / 10, &stub);
    assert_eq!(result, Ok(()));
    assert_eq!(ticks, 3);
    assert_eq!(clock, 201 * MS);
    assert!(clock < 10_000 * MS);
}

#[test]
fn match_counts_even_past_the_deadline() {
    let (result, ticks, _) = wait(10, 5 * MS, 50 * MS, MS, &|_| TickOutcome::Matched);
    assert_eq!(result, Ok(()));
    assert_eq!(ticks, 1);
}

#[test]
fn zero_tick_rate_is_refused_before_any_capture() {
    let (result, ticks, clock) = wait(0, 200 * MS, MS, MS, &|_| TickOutcome::Matched);
    assert_eq!(result, Err(WaitError::InvalidInput));
    assert_eq!(ticks, 0);
    assert_eq!(clock, 0);
    assert_eq!(Poller::begin(0, 0).err(), Some(WaitError::InvalidInput));
    assert_eq!(Poller::begin(0, u64::MAX).err(), Some(WaitError::InvalidInput));
}

#[test]
fn capture_failure_is_not_retried() {
    let stub = |n: u32| if n == 2 { TickOutcome::CaptureFailed } else { TickOutcome::Absent };
    let (result, ticks, _) = wait(20, 1_000 * MS, MS, MS, &stub);
    assert_eq!(result, Err(WaitError::CaptureError));
    assert_eq!(ticks, 2);
}

#[test]
fn refused_search_is_not_retried() {
    let (result, ticks, _) = wait(20, 1_000 * MS, MS, MS, &|_| TickOutcome::InvalidInput);
    assert_eq!(result, Err(WaitError::InvalidInput));
    assert_eq!(ticks, 1);
}

#[test]
fn tick_period_is_the_second_divided_by_the_rate() {
    assert_eq!(Poller::begin(1, 0).unwrap().period(), 1_000_000_000);
    assert_eq!(Poller::begin(10, 0).unwrap().period(), 100_000_000);
    assert_eq!(Poller::begin(3, 0).unwrap().period(), 333_333_333);
    assert_eq!(Poller::begin(255, 0).unwrap().period(), 3_921_568);
}

#[test]
fn throttling_lasts_until_the_period_has_passed() {
    let mut poller = Poller::begin(10, 1_000 * MS).unwrap();
    assert_eq!(poller.action(), PollAction::Capture);
    assert_eq!(poller.tick(5 * MS, 7 * MS, TickOutcome::Absent), PollAction::Yield);
    assert_eq!(poller.yielded(50 * MS), PollAction::Yield);
    assert_eq!(poller.yielded(105 * MS - 1), PollAction::Yield);
    assert_eq!(poller.yielded(105 * MS), PollAction::Capture);
    assert_eq!(poller.yielded(106 * MS), PollAction::Capture);
    assert_eq!(poller.tick(105 * MS, 205 * MS, TickOutcome::Absent), PollAction::Capture);
    assert_eq!(poller.tick(205 * MS, 205 * MS, TickOutcome::Absent), PollAction::Yield);
    assert_eq!(poller.yielded(0), PollAction::Yield);
    assert_eq!(poller.yielded(305 * MS), PollAction::Capture);
}

#[test]
fn deadline_is_exceeded_only_past_the_longest_wait() {
    let mut poller = Poller::begin(100, 200 * MS).unwrap();
    assert_eq!(poller.tick(190 * MS, 200 * MS, TickOutcome::Absent), PollAction::Capture);
    assert_eq!(
        poller.tick(200 * MS, 200 * MS + 1, TickOutcome::Absent),
        PollAction::Finish(Err(WaitError::TimedOut))
    );
    let mut instant = Poller::begin(100, 0).unwrap();
    assert_eq!(instant.tick(0, 0, TickOutcome::Absent), PollAction::Yield);
    assert_eq!(instant.tick(0, 1, TickOutcome::Absent), PollAction::Finish(Err(WaitError::TimedOut)));
}

#[test]
fn sleeping_throttle_asks_for_the_rest_of_the_period() {
    let mut poller = Poller::begin_with(10, 1_000 * MS, Throttle::Sleep).unwrap();
    assert_eq!(poller.action(), PollAction::Capture);
    assert_eq!(
        poller.tick(5 * MS, 7 * MS, TickOutcome::Absent),
        PollAction::Sleep { nanos: 98 * MS }
    );
    assert_eq!(poller.yielded(60 * MS), PollAction::Sleep { nanos: 45 * MS });
    assert_eq!(poller.yielded(105 * MS), PollAction::Capture);
    assert_eq!(poller.tick(105 * MS, 106 * MS, TickOutcome::Matched), PollAction::Finish(Ok(())));
    assert_eq!(Poller::begin_with(0, 1, Throttle::Sleep).err(), Some(WaitError::InvalidInput));
}

#[test]
fn finished_wait_stays_finished() {
    let mut poller = Poller::begin(10, 200 * MS).unwrap();
    assert_eq!(poller.tick(0, MS, TickOutcome::Matched), PollAction::Finish(Ok(())));
    assert_eq!(poller.tick(MS, 900 * MS, TickOutcome::Absent), PollAction::Finish(Ok(())));
    assert_eq!(poller.yielded(950 * MS), PollAction::Finish(Ok(())));
    assert_eq!(poller.tick(MS, 2 * MS, TickOutcome::CaptureFailed), PollAction::Finish(Ok(())));
    assert_eq!(poller.action(), PollAction::Finish(Ok(())));
}

#[test]
fn search_results_count_as_tick_outcomes() {
    let found: Result<DisplayArea, SearchError> = Ok(DisplayArea::from_points(1, 2, 3, 4));
    assert_eq!(tick_outcome(&found), TickOutcome::Matched);
    assert_eq!(tick_outcome(&Err(SearchError::NotFound)), TickOutcome::Absent);
    for fault in [
        InputFault::EmptySource,
        InputFault::EmptyTemplate,
        InputFault::OversizedTemplate,
        InputFault::ThresholdOutOfRange,
    ] {
        assert_eq!(tick_outcome(&Err(SearchError::InvalidInput(fault))), TickOutcome::InvalidInput);
    }
}
