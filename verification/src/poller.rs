//! Waiting for a pattern to appear: the decisions of the polling loop.
//!
//! Capturing the screen, reading the clock and yielding the processor are
//! done by the caller. What is decided here is what follows each of them:
//! whether the wait is over and how, whether the loop must throttle before
//! the next tick, and when the throttling ends. Times are nanoseconds on a
//! monotonic clock, counted from the moment the wait began.

use vstd::prelude::*;
use crate::matcher::SearchError;
use crate::region::DisplayArea;

verus! {

/// Nanoseconds in one second.
pub const NANOS_PER_SECOND: u64 = 1_000_000_000;

/// How a wait can fail.
#[derive(Clone, Copy, Debug, PartialEq, Eq)]
pub enum WaitError {
    /// The wait was set up with a tick rate of zero, or a search during it
    /// was refused for its inputs.
    InvalidInput,
    /// The deadline passed while the pattern was still absent.
    TimedOut,
    /// A frame could not be captured.
    CaptureError,
}

/// What one tick, a capture followed by a search, came to.
#[derive(Clone, Copy, Debug, PartialEq, Eq)]
pub enum TickOutcome {
    Matched,
    Absent,
    CaptureFailed,
    InvalidInput,
}

/// How the loop passes the rest of a tick period.
#[derive(Clone, Copy, Debug, PartialEq, Eq)]
pub enum Throttle {
    /// Yield the processor again and again, reading the clock in between:
    /// precise, at the price of a busy processor.
    BusyYield,
    /// Sleep for the time that is left.
    Sleep,
}

/// Where a wait stands.
#[derive(Clone, Copy, Debug, PartialEq, Eq)]
pub enum Phase {
    /// The next thing to happen is a tick.
    Capturing,
    /// The tick that began at `tick_started` found nothing and was shorter
    /// than the tick period; the loop idles until the period has passed.
    /// The clock was last read at `seen`.
    Throttling { tick_started: u64, seen: u64 },
    /// The wait is over.
    Finished(Result<(), WaitError>),
}

/// What the caller of a poller is to do next.
#[derive(Clone, Copy, Debug, PartialEq, Eq)]
pub enum PollAction {
    /// Capture a frame, search it, and report the tick.
    Capture,
    /// Yield the processor once, read the clock, and report the time.
    Yield,
    /// Sleep for `nanos` nanoseconds, read the clock, and report the time.
    Sleep { nanos: u64 },
    /// Return this result.
    Finish(Result<(), WaitError>),
}

/// The shortest time from the start of one tick to the start of the next,
/// for a rate of `ticks_per_second`.
pub open spec fn tick_period(ticks_per_second: int) -> int {
    NANOS_PER_SECOND as int / ticks_per_second
}

/// The time from `from` to `to`, zero where the clock did not advance.
pub open spec fn elapsed(from: int, to: int) -> int {
    if to >= from {
        to - from
    } else {
        0
    }
}

/// How a search result counts as the outcome of a tick.
pub open spec fn tick_outcome_spec(found: Result<DisplayArea, SearchError>) -> TickOutcome {
    match found {
        Ok(_) => TickOutcome::Matched,
        Err(SearchError::NotFound) => TickOutcome::Absent,
        Err(SearchError::InvalidInput(_)) => TickOutcome::InvalidInput,
    }
}

/// What the caller of a poller reports back.
pub enum PollEvent {
    /// A tick that began at `started` and ended at `finished`.
    Tick { started: u64, finished: u64, outcome: TickOutcome },
    /// One yield or one sleep, after which the clock read `now`.
    Idled { now: u64 },
}

/// What a poller holds, as plain mathematics.
pub struct PollState {
    /// The tick period in nanoseconds.
    pub period: int,
    /// The longest time to wait, in nanoseconds.
    pub max_wait: int,
    pub throttle: Throttle,
    pub phase: Phase,
}

impl PollState {
    /// The wait is over.
    pub open spec fn finished(self) -> bool {
        self.phase is Finished
    }

    /// The state in which a wait begins.
    pub open spec fn initial(ticks_per_second: int, max_wait: int, throttle: Throttle) -> PollState {
        PollState {
            period: tick_period(ticks_per_second),
            max_wait,
            throttle,
            phase: Phase::Capturing,
        }
    }

    /// The action that this state calls for.
    pub open spec fn action(self) -> PollAction {
        match self.phase {
            Phase::Capturing => PollAction::Capture,
            Phase::Throttling { tick_started, seen } => match self.throttle {
                Throttle::BusyYield => PollAction::Yield,
                Throttle::Sleep => PollAction::Sleep {
                    nanos: (self.period - elapsed(tick_started as int, seen as int)) as u64,
                },
            },
            Phase::Finished(result) => PollAction::Finish(result),
        }
    }

    /// The phase that follows throttling since `tick_started` when the
    /// clock reads `now`.
    pub open spec fn throttled(self, tick_started: u64, now: u64) -> Phase {
        if elapsed(tick_started as int, now as int) < self.period {
            Phase::Throttling { tick_started, seen: now }
        } else {
            Phase::Capturing
        }
    }

    /// The state after a tick that began at `started` and ended at
    /// `finished` with `outcome`. A match ends the wait at once; a failure
    /// to capture or a refused search ends it too; an absent pattern ends
    /// it once the time since the wait began exceeds the longest wait, and
    /// otherwise leads to the next tick, after throttling where the tick
    /// was shorter than the period.
    pub open spec fn after_tick(self, started: u64, finished: u64, outcome: TickOutcome) -> PollState {
        if self.finished() {
            self
        } else {
            PollState {
                phase: match outcome {
                    TickOutcome::Matched => Phase::Finished(Ok(())),
                    TickOutcome::CaptureFailed => Phase::Finished(Err(WaitError::CaptureError)),
                    TickOutcome::InvalidInput => Phase::Finished(Err(WaitError::InvalidInput)),
                    TickOutcome::Absent => if finished > self.max_wait {
                        Phase::Finished(Err(WaitError::TimedOut))
                    } else {
                        self.throttled(started, finished)
                    },
                },
                ..self
            }
        }
    }

    /// The state after the loop idled, by one yield or one sleep, and the
    /// clock then read `now`.
    pub open spec fn after_yield(self, now: u64) -> PollState {
        match self.phase {
            Phase::Throttling { tick_started, seen } => PollState {
                phase: self.throttled(tick_started, now),
                ..self
            },
            _ => self,
        }
    }

    /// The state after `event`.
    pub open spec fn after(self, event: PollEvent) -> PollState {
        match event {
            PollEvent::Tick { started, finished, outcome } => self.after_tick(started, finished, outcome),
            PollEvent::Idled { now } => self.after_yield(now),
        }
    }

    /// The state after all of `events`, in order.
    pub open spec fn after_all(self, events: Seq<PollEvent>) -> PollState
        decreases events.len(),
    {
        if events.len() == 0 {
            self
        } else {
            self.after_all(events.drop_last()).after(events.last())
        }
    }

    /// Each of `events` answers the action that the state before it called
    /// for, and the clock never runs backwards.
    pub open spec fn obeyed_by(self, events: Seq<PollEvent>) -> bool
        decreases events.len(),
    {
        events.len() == 0 || {
            let earlier = events.drop_last();
            let action = self.after_all(earlier).action();
            &&& self.obeyed_by(earlier)
            &&& match events.last() {
                PollEvent::Tick { started, finished, .. } => action == PollAction::Capture
                    && last_reading(earlier) <= started <= finished,
                PollEvent::Idled { now } => (action is Yield || action is Sleep) && last_reading(
                    earlier,
                ) <= now,
            }
        }
    }

    /// The tick period is positive, and throttling goes on only while the
    /// period has not passed.
    pub open spec fn wf(self) -> bool {
        &&& self.period > 0
        &&& self.phase matches Phase::Throttling { tick_started, seen } ==> elapsed(
            tick_started as int,
            seen as int,
        ) < self.period
    }
}

/// One wait in progress.
pub struct Poller {
    period: u64,
    max_wait: u64,
    throttle: Throttle,
    phase: Phase,
}

impl View for Poller {
    type V = PollState;

    closed spec fn view(&self) -> PollState {
        PollState {
            period: self.period as int,
            max_wait: self.max_wait as int,
            throttle: self.throttle,
            phase: self.phase,
        }
    }
}

/// What the clock read when it was last read in the course of `events`;
/// zero before the first of them.
pub open spec fn last_reading(events: Seq<PollEvent>) -> int {
    if events.len() == 0 {
        0
    } else {
        match events.last() {
            PollEvent::Tick { finished, .. } => finished as int,
            PollEvent::Idled { now } => now as int,
        }
    }
}

/// How many of `events` are ticks.
pub open spec fn tick_count(events: Seq<PollEvent>) -> int
    decreases events.len(),
{
    if events.len() == 0 {
        0
    } else {
        tick_count(events.drop_last()) + if events.last() is Tick {
            1int
        } else {
            0int
        }
    }
}

/// The outcome of the tick whose search ended with `found`.
pub fn tick_outcome(found: &Result<DisplayArea, SearchError>) -> (res: TickOutcome)
    ensures
        res == tick_outcome_spec(*found),
{
    match found {
        Ok(_) => TickOutcome::Matched,
        Err(SearchError::NotFound) => TickOutcome::Absent,
        Err(SearchError::InvalidInput(_)) => TickOutcome::InvalidInput,
    }
}

impl Poller {
    /// What holds of every poller that `begin` made.
    pub open spec fn wf(&self) -> bool {
        self@.wf()
    }

    /// Sets up a wait of at most `max_wait` nanoseconds at no more than
    /// `ticks_per_second` ticks a second, which throttles by yielding. A
    /// rate of zero is refused, before any frame is asked for.
    pub fn begin(ticks_per_second: u8, max_wait: u64) -> (res: Result<Poller, WaitError>)
        ensures
            ticks_per_second == 0 ==> (res matches Err(e) && e == WaitError::InvalidInput),
            ticks_per_second != 0 ==> (res matches Ok(poller) && poller.wf() && poller@
                == PollState::initial(ticks_per_second as int, max_wait as int, Throttle::BusyYield)),
    {
        Poller::begin_with(ticks_per_second, max_wait, Throttle::BusyYield)
    }

    /// Sets up a wait as `begin` does, with the way of throttling chosen by
    /// the caller.
    pub fn begin_with(
        ticks_per_second: u8,
        max_wait: u64,
        throttle: Throttle,
    ) -> (res: Result<Poller, WaitError>)
        ensures
            ticks_per_second == 0 ==> (res matches Err(e) && e == WaitError::InvalidInput),
            ticks_per_second != 0 ==> (res matches Ok(poller) && poller.wf() && poller@
                == PollState::initial(ticks_per_second as int, max_wait as int, throttle)),
    {
        if ticks_per_second == 0 {
            Err(WaitError::InvalidInput)
        } else {
            proof {
                lemma_tick_period_bounds(ticks_per_second as int);
            }
            let period: u64 = NANOS_PER_SECOND / (ticks_per_second as u64);
            Ok(Poller { period, max_wait, throttle, phase: Phase::Capturing })
        }
    }

    /// What is to be done next.
    pub fn action(&self) -> (res: PollAction)
        requires
            self.wf(),
        ensures
            res == self@.action(),
    {
        match self.phase {
            Phase::Capturing => PollAction::Capture,
            Phase::Throttling { tick_started, seen } => match self.throttle {
                Throttle::BusyYield => PollAction::Yield,
                Throttle::Sleep => {
                    let spent: u64 = if seen >= tick_started { seen - tick_started } else { 0 };
                    PollAction::Sleep { nanos: self.period - spent }
                },
            },
            Phase::Finished(result) => PollAction::Finish(result),
        }
    }

    /// The tick period in nanoseconds.
    pub fn period(&self) -> (res: u64)
        ensures
            res == self@.period,
    {
        self.period
    }

    /// Whether throttling since `tick_started` goes on at `now`.
    fn throttle(&self, tick_started: u64, now: u64) -> (res: Phase)
        ensures
            res == self@.throttled(tick_started, now),
    {
        let spent: u64 = if now >= tick_started { now - tick_started } else { 0 };
        if spent < self.period {
            Phase::Throttling { tick_started, seen: now }
        } else {
            Phase::Capturing
        }
    }

    /// Takes in a tick that began at `started` and ended at `finished`, and
    /// says what to do next.
    pub fn tick(&mut self, started: u64, finished: u64, outcome: TickOutcome) -> (res: PollAction)
        requires
            old(self).wf(),
        ensures
            final(self).wf(),
            final(self)@ == old(self)@.after_tick(started, finished, outcome),
            res == final(self)@.action(),
    {
        match self.phase {
            Phase::Finished(_) => {},
            _ => {
                self.phase = match outcome {
                    TickOutcome::Matched => Phase::Finished(Ok(())),
                    TickOutcome::CaptureFailed => Phase::Finished(Err(WaitError::CaptureError)),
                    TickOutcome::InvalidInput => Phase::Finished(Err(WaitError::InvalidInput)),
                    TickOutcome::Absent => if finished > self.max_wait {
                        Phase::Finished(Err(WaitError::TimedOut))
                    } else {
                        self.throttle(started, finished)
                    },
                };
            },
        }
        self.action()
    }

    /// Takes in the time read after one yield or one sleep, and says what
    /// to do next.
    pub fn yielded(&mut self, now: u64) -> (res: PollAction)
        requires
            old(self).wf(),
        ensures
            final(self).wf(),
            final(self)@ == old(self)@.after_yield(now),
            res == final(self)@.action(),
    {
        match self.phase {
            Phase::Throttling { tick_started, seen } => {
                self.phase = self.throttle(tick_started, now);
            },
            _ => {},
        }
        self.action()
    }
}

/// A wait times out only on a tick that found the pattern absent and ended
/// after the longest wait had passed.
pub proof fn lemma_timeout_only_past_deadline(s: PollState, started: u64, finished: u64, outcome: TickOutcome)
    requires
        !s.finished(),
        s.after_tick(started, finished, outcome).phase == Phase::Finished(
            Err::<(), WaitError>(WaitError::TimedOut),
        ),
    ensures
        outcome == TickOutcome::Absent,
        finished > s.max_wait,
{
}

/// A tick that finds the pattern ends the wait successfully, whatever the
/// clock reads.
pub proof fn lemma_match_ends_wait(s: PollState, started: u64, finished: u64)
    requires
        !s.finished(),
    ensures
        s.after_tick(started, finished, TickOutcome::Matched).phase == Phase::Finished(
            Ok::<(), WaitError>(()),
        ),
{
}

/// Only an absent pattern is retried: on any other outcome, and on an
/// absent pattern past the deadline, the wait is over after the tick.
pub proof fn lemma_retry_only_when_absent(s: PollState, started: u64, finished: u64, outcome: TickOutcome)
    ensures
        !s.after_tick(started, finished, outcome).finished() <==> !s.finished() && outcome
            == TickOutcome::Absent && finished <= s.max_wait,
{
}

/// A wait that is over stays over, with the same result.
pub proof fn lemma_finished_is_final(s: PollState, started: u64, finished: u64, outcome: TickOutcome, now: u64)
    requires
        s.finished(),
    ensures
        s.after_tick(started, finished, outcome) == s,
        s.after_yield(now) == s,
{
}

/// Throttling ends exactly when a full tick period has passed since the
/// tick began, and it never ends the wait.
pub proof fn lemma_throttle_holds_period(s: PollState, tick_started: u64, seen: u64, now: u64)
    requires
        s.phase == (Phase::Throttling { tick_started, seen }),
    ensures
        s.after_yield(now).phase == Phase::Capturing <==> elapsed(tick_started as int, now as int)
            >= s.period,
        !s.after_yield(now).finished(),
        s.after_yield(now).phase != Phase::Capturing ==> s.after_yield(now).phase == (
            Phase::Throttling { tick_started, seen: now }
        ),
{
}

/// A sleep that the loop is sent into ends no later than the tick period
/// does, and would not end before it if the clock stood where it was last
/// read.
pub proof fn lemma_sleep_fills_period(s: PollState, tick_started: u64, seen: u64, nanos: u64)
    requires
        s.wf(),
        tick_started <= seen,
        s.phase == (Phase::Throttling { tick_started, seen }),
        s.period <= u64::MAX,
        s.action() == (PollAction::Sleep { nanos }),
    ensures
        0 < nanos <= s.period,
        seen + nanos == tick_started + s.period,
{
}

/// A tick rate of one to 255 ticks a second gives a tick period between
/// a 255th of a second and a second.
pub proof fn lemma_tick_period_bounds(ticks_per_second: int)
    requires
        1 <= ticks_per_second <= 255,
    ensures
        3_921_568 <= tick_period(ticks_per_second) <= NANOS_PER_SECOND,
        tick_period(ticks_per_second) * ticks_per_second <= NANOS_PER_SECOND,
{
    assert(3_921_568 <= 1_000_000_000int / ticks_per_second <= 1_000_000_000
        && (1_000_000_000int / ticks_per_second) * ticks_per_second <= 1_000_000_000) by (nonlinear_arith)
        requires
            1 <= ticks_per_second <= 255,
    ;
}

/// What holds after every course of events that obeys the poller.
spec fn paced(s: PollState, ticks: int, clock: int) -> bool {
    &&& s.wf()
    &&& 0 <= ticks
    &&& 0 <= clock
    &&& !s.finished() && ticks >= 1 ==> (ticks - 1) * s.period <= s.max_wait
    &&& s.phase is Capturing ==> clock >= ticks * s.period
    &&& s.phase matches Phase::Throttling { tick_started, seen } ==> ticks >= 1 && tick_started >= (
    ticks - 1) * s.period && clock == seen
    &&& s.finished() ==> ticks >= 1 && (ticks >= 2 ==> (ticks - 2) * s.period <= s.max_wait)
    &&& s.phase == Phase::Finished(Err::<(), WaitError>(WaitError::TimedOut)) ==> clock > s.max_wait
}

proof fn lemma_paced(s0: PollState, events: Seq<PollEvent>)
    requires
        s0.wf(),
        s0.phase is Capturing,
        s0.obeyed_by(events),
    ensures
        paced(s0.after_all(events), tick_count(events), last_reading(events)),
        s0.after_all(events).period == s0.period,
        s0.after_all(events).max_wait == s0.max_wait,
    decreases events.len(),
{
    if events.len() > 0 {
        let earlier = events.drop_last();
        lemma_paced(s0, earlier);
        let s = s0.after_all(earlier);
        let k = tick_count(earlier);
        let p = s.period;
        assert((k + 1) * p == k * p + p && (k - 1) * p + p == k * p && (k - 2) * p + p == (k - 1) * p)
            by (nonlinear_arith);
    }
}

/// Ticks are paced and bounded by the deadline. Where the caller does what
/// the poller asks for, on a clock that does not run backwards: a wait
/// ends only after at least one tick; it times out only after more than
/// the longest wait has passed since it began; the tick after `n` others
/// begins no earlier than `n` periods into the wait; and when there were
/// two ticks or more, the last but one began no later than the deadline,
/// so that a wait of `max_wait` makes at most two ticks more than periods
/// fit into it.
pub proof fn lemma_ticks_are_paced(
    ticks_per_second: int,
    max_wait: u64,
    throttle: Throttle,
    events: Seq<PollEvent>,
)
    requires
        1 <= ticks_per_second <= 255,
        PollState::initial(ticks_per_second, max_wait as int, throttle).obeyed_by(events),
    ensures
        ({
            let end = PollState::initial(ticks_per_second, max_wait as int, throttle).after_all(events);
            let ticks = tick_count(events);
            let period = tick_period(ticks_per_second);
            &&& end.finished() ==> ticks >= 1
            &&& end.phase == Phase::Finished(Err::<(), WaitError>(WaitError::TimedOut))
                ==> last_reading(events) > max_wait
            &&& end.phase is Capturing ==> last_reading(events) >= ticks * period
            &&& ticks >= 2 ==> (ticks - 2) * period <= max_wait
        }),
{
    lemma_tick_period_bounds(ticks_per_second);
    let s0 = PollState::initial(ticks_per_second, max_wait as int, throttle);
    lemma_paced(s0, events);
    let ticks = tick_count(events);
    let period = tick_period(ticks_per_second);
    assert((ticks - 2) * period + period == (ticks - 1) * period) by (nonlinear_arith);
}

} // verus!
