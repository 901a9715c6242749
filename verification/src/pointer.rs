//! The arithmetic of pointer input: where an absolute move goes, what a
//! relative move or a turn of the wheel sends, and how a smooth motion is
//! paced.

use vstd::prelude::*;

verus! {

/// The extent of the normalized coordinate space of absolute moves.
pub const ABSOLUTE_RANGE: u64 = 65536;

/// Nanoseconds in one second.
pub const NANOS_PER_SECOND: u64 = 1_000_000_000;

/// A signed amount as the unsigned 32-bit word that carries it.
pub open spec fn as_dword(v: int) -> int {
    if v >= 0 {
        v
    } else {
        v + 0x1_0000_0000
    }
}

/// A pixel position along a screen edge of `extent` pixels, in the
/// normalized coordinate space.
pub open spec fn absolute_coordinate(position: int, extent: int) -> int {
    position * ABSOLUTE_RANGE as int / extent
}

/// The absolute value.
pub open spec fn magnitude(v: int) -> int {
    if v >= 0 {
        v
    } else {
        -v
    }
}

/// Why a pointer motion was refused.
#[derive(Clone, Copy, Debug, PartialEq, Eq)]
pub enum MotionError {
    ZeroDuration,
    ZeroRate,
    NoMovement,
    ZeroDelta,
}

/// A turn of the wheel, spread over single notches.
#[derive(Clone, Copy, Debug, PartialEq, Eq)]
pub struct WheelPlan {
    /// How many events are sent.
    pub steps: u32,
    /// What each event carries: one notch up or one notch down.
    pub step: u32,
    /// The pause after each event, in nanoseconds.
    pub pause: u64,
}

/// The word that carries `v`.
fn dword(v: i32) -> (res: u32)
    ensures
        res == as_dword(v as int),
{
    if v >= 0 {
        v as u32
    } else {
        (v as i64 + 0x1_0000_0000) as u32
    }
}

/// The normalized coordinates of the pixel `(new_x, new_y)` on a screen of
/// the given size, or `None` where the pixel lies beyond the screen and the
/// pointer stays where it is.
pub fn mouse_set_position(
    new_x: u32,
    new_y: u32,
    screen_width: u32,
    screen_height: u32,
) -> (res: Option<(u32, u32)>)
    requires
        new_x <= screen_width && new_y <= screen_height ==> screen_width > 0 && screen_height > 0,
    ensures
        res is None <==> new_x > screen_width || new_y > screen_height,
        res matches Some(p) ==> p.0 == absolute_coordinate(new_x as int, screen_width as int) && p.1
            == absolute_coordinate(new_y as int, screen_height as int) && p.0 <= ABSOLUTE_RANGE && p.1
            <= ABSOLUTE_RANGE,
{
    if new_x > screen_width || new_y > screen_height {
        return None;
    }
    let x: u64 = new_x as u64 * ABSOLUTE_RANGE / (screen_width as u64);
    let y: u64 = new_y as u64 * ABSOLUTE_RANGE / (screen_height as u64);
    proof {
        lemma_absolute_coordinate_bounds(new_x as int, screen_width as int);
        lemma_absolute_coordinate_bounds(new_y as int, screen_height as int);
    }
    Some((x as u32, y as u32))
}

/// What a relative move by `(x, y)` pixels sends, or `None` where there is
/// nothing to move.
pub fn mouse_movement(x: i32, y: i32) -> (res: Option<(u32, u32)>)
    ensures
        res is None <==> x == 0 && y == 0,
        res matches Some(p) ==> p.0 == as_dword(x as int) && p.1 == as_dword(y as int),
{
    if y == 0 && x == 0 {
        None
    } else {
        Some((dword(x), dword(y)))
    }
}

/// What a turn of the wheel by `delta` sends.
pub fn mouse_wheel_spin(delta: i32) -> (res: u32)
    ensures
        res == as_dword(delta as int),
{
    dword(delta)
}

/// Spreads a turn of the wheel by `delta` over `duration` nanoseconds: one
/// notch per event, as many events as `delta` has notches, and the same
/// pause after each. A turn by nothing is refused.
pub fn mouse_wheel_complex(delta: i32, duration: u64) -> (res: Result<WheelPlan, MotionError>)
    ensures
        delta == 0 ==> res == Err::<WheelPlan, MotionError>(MotionError::ZeroDelta),
        delta != 0 ==> res == Ok::<WheelPlan, MotionError>(
            WheelPlan {
                steps: magnitude(delta as int) as u32,
                step: as_dword(if delta > 0 { 1int } else { -1int }) as u32,
                pause: (duration as int / magnitude(delta as int)) as u64,
            },
        ),
{
    if delta == 0 {
        return Err(MotionError::ZeroDelta);
    }
    let steps: u32 = if delta > 0 { delta as u32 } else { (-(delta as i64)) as u32 };
    let step: u32 = if delta > 0 { dword(1) } else { dword(-1) };
    let pause: u64 = duration / (steps as u64);
    Ok(WheelPlan { steps, step, pause })
}

/// Where a smooth motion stands.
#[derive(Clone, Copy, Debug, PartialEq, Eq)]
pub enum PacePhase {
    /// The next thing to happen is an update of the pointer.
    Stepping,
    /// The update that began at `tick_started` is done, and the time to
    /// the next update has not passed yet.
    Throttling { tick_started: u64 },
    /// The time of the motion is over: what is left is to put the pointer
    /// where the motion ends.
    Settling,
}

/// What the caller of a pacer is to do next.
#[derive(Clone, Copy, Debug, PartialEq, Eq)]
pub enum PaceAction {
    /// Put the pointer where the motion is now, and report the update.
    Step,
    /// Yield the processor once, read the clock, and report the time.
    Yield,
    /// Put the pointer where the motion ends, and return.
    Settle,
}

/// What a pacer holds, as plain mathematics. Times are nanoseconds, counted
/// from the moment the motion began.
pub struct PaceState {
    /// The shortest time from one update to the next.
    pub period: int,
    /// How long the motion takes.
    pub duration: int,
    pub phase: PacePhase,
}

/// The first reason, if any, for which a smooth motion is refused: no
/// duration, no rate, no movement, in this order.
pub open spec fn motion_fault(duration: u64, mps_lock: u64, moves: bool) -> Option<MotionError> {
    if duration == 0 {
        Some(MotionError::ZeroDuration)
    } else if mps_lock == 0 {
        Some(MotionError::ZeroRate)
    } else if !moves {
        Some(MotionError::NoMovement)
    } else {
        None
    }
}

/// The time from `from` to `to`, zero where the clock did not advance.
pub open spec fn elapsed(from: int, to: int) -> int {
    if to >= from {
        to - from
    } else {
        0
    }
}

impl PaceState {
    /// The state in which a motion begins.
    pub open spec fn initial(duration: int, mps_lock: int) -> PaceState {
        PaceState { period: NANOS_PER_SECOND as int / mps_lock, duration, phase: PacePhase::Stepping }
    }

    /// The action that this state calls for.
    pub open spec fn action(self) -> PaceAction {
        match self.phase {
            PacePhase::Stepping => PaceAction::Step,
            PacePhase::Throttling { .. } => PaceAction::Yield,
            PacePhase::Settling => PaceAction::Settle,
        }
    }

    /// What follows once the time to the next update has passed and the
    /// clock reads `now`: another update while the motion is not over.
    pub open spec fn resumed(self, now: u64) -> PacePhase {
        if now < self.duration {
            PacePhase::Stepping
        } else {
            PacePhase::Settling
        }
    }

    /// What follows the update that began at `tick_started` when the clock
    /// reads `now`.
    pub open spec fn paced(self, tick_started: u64, now: u64) -> PacePhase {
        if elapsed(tick_started as int, now as int) < self.period {
            PacePhase::Throttling { tick_started }
        } else {
            self.resumed(now)
        }
    }

    /// The state after an update that began at `started` and ended at
    /// `finished`.
    pub open spec fn after_step(self, started: u64, finished: u64) -> PaceState {
        match self.phase {
            PacePhase::Settling => self,
            _ => PaceState { phase: self.paced(started, finished), ..self },
        }
    }

    /// The state after one yield, after which the clock read `now`.
    pub open spec fn after_yield(self, now: u64) -> PaceState {
        match self.phase {
            PacePhase::Throttling { tick_started } => PaceState {
                phase: self.paced(tick_started, now),
                ..self
            },
            _ => self,
        }
    }
}

/// One smooth motion in progress.
pub struct MotionPacer {
    period: u64,
    duration: u64,
    phase: PacePhase,
}

impl View for MotionPacer {
    type V = PaceState;

    closed spec fn view(&self) -> PaceState {
        PaceState { period: self.period as int, duration: self.duration as int, phase: self.phase }
    }
}

impl MotionPacer {
    /// Sets up a motion of `duration` nanoseconds at no more than
    /// `mps_lock` updates a second. `moves` says whether the motion leads
    /// anywhere.
    pub fn begin(duration: u64, mps_lock: u64, moves: bool) -> (res: Result<MotionPacer, MotionError>)
        ensures
            match motion_fault(duration, mps_lock, moves) {
                Some(fault) => res matches Err(e) && e == fault,
                None => res matches Ok(pacer) && pacer@ == PaceState::initial(
                    duration as int,
                    mps_lock as int,
                ),
            },
    {
        if duration == 0 {
            Err(MotionError::ZeroDuration)
        } else if mps_lock == 0 {
            Err(MotionError::ZeroRate)
        } else if !moves {
            Err(MotionError::NoMovement)
        } else {
            Ok(
                MotionPacer {
                    period: NANOS_PER_SECOND / mps_lock,
                    duration,
                    phase: PacePhase::Stepping,
                },
            )
        }
    }

    /// What is to be done next.
    pub fn action(&self) -> (res: PaceAction)
        ensures
            res == self@.action(),
    {
        match self.phase {
            PacePhase::Stepping => PaceAction::Step,
            PacePhase::Throttling { .. } => PaceAction::Yield,
            PacePhase::Settling => PaceAction::Settle,
        }
    }

    /// The shortest time from one update to the next, in nanoseconds.
    pub fn period(&self) -> (res: u64)
        ensures
            res == self@.period,
    {
        self.period
    }

    /// What follows the update that began at `tick_started` at `now`.
    fn pace(&self, tick_started: u64, now: u64) -> (res: PacePhase)
        ensures
            res == self@.paced(tick_started, now),
    {
        let spent: u64 = if now >= tick_started { now - tick_started } else { 0 };
        if spent < self.period {
            PacePhase::Throttling { tick_started }
        } else if now < self.duration {
            PacePhase::Stepping
        } else {
            PacePhase::Settling
        }
    }

    /// Takes in an update that began at `started` and ended at `finished`,
    /// and says what to do next.
    pub fn stepped(&mut self, started: u64, finished: u64) -> (res: PaceAction)
        ensures
            final(self)@ == old(self)@.after_step(started, finished),
            res == final(self)@.action(),
    {
        match self.phase {
            PacePhase::Settling => {},
            _ => {
                self.phase = self.pace(started, finished);
            },
        }
        self.action()
    }

    /// Takes in the time read after one yield, and says what to do next.
    pub fn yielded(&mut self, now: u64) -> (res: PaceAction)
        ensures
            final(self)@ == old(self)@.after_yield(now),
            res == final(self)@.action(),
    {
        match self.phase {
            PacePhase::Throttling { tick_started } => {
                self.phase = self.pace(tick_started, now);
            },
            _ => {},
        }
        self.action()
    }
}

/// Sets up a smooth motion of the pointer from `start_pos` to `end_pos`.
pub fn mouse_set_position_complex(
    start_pos: (u32, u32),
    end_pos: (u32, u32),
    duration: u64,
    mps_lock: u64,
) -> (res: Result<MotionPacer, MotionError>)
    ensures
        match motion_fault(duration, mps_lock, start_pos != end_pos) {
            Some(fault) => res matches Err(e) && e == fault,
            None => res matches Ok(pacer) && pacer@ == PaceState::initial(
                duration as int,
                mps_lock as int,
            ),
        },
{
    MotionPacer::begin(duration, mps_lock, !(start_pos.0 == end_pos.0 && start_pos.1 == end_pos.1))
}

/// Sets up a smooth motion of the pointer by `moving` pixels.
pub fn mouse_movement_complex(
    moving: (u32, u32),
    duration: u64,
    mps_lock: u64,
) -> (res: Result<MotionPacer, MotionError>)
    ensures
        match motion_fault(duration, mps_lock, moving != (0u32, 0u32)) {
            Some(fault) => res matches Err(e) && e == fault,
            None => res matches Ok(pacer) && pacer@ == PaceState::initial(
                duration as int,
                mps_lock as int,
            ),
        },
{
    MotionPacer::begin(duration, mps_lock, !(moving.0 == 0 && moving.1 == 0))
}

/// A motion settles only when its time is over, and no update follows
/// another sooner than the period allows: after an update or a yield, the
/// next update is called for only once a period has passed since the last
/// one began, and while the time of the motion is not over.
pub proof fn lemma_motion_is_paced(s: PaceState, tick_started: u64, now: u64)
    requires
        s.phase == PacePhase::Stepping || s.phase == (PacePhase::Throttling { tick_started }),
    ensures
        ({
            let next = if s.phase == PacePhase::Stepping {
                s.after_step(tick_started, now)
            } else {
                s.after_yield(now)
            };
            &&& next.action() == PaceAction::Settle ==> now >= s.duration
            &&& next.action() == PaceAction::Step ==> now < s.duration
            &&& next.action() != PaceAction::Yield <==> elapsed(tick_started as int, now as int)
                >= s.period
            &&& next.action() == PaceAction::Yield ==> next.phase == (
                PacePhase::Throttling { tick_started }
            )
        }),
{
}

/// A motion that settled stays settled.
pub proof fn lemma_settled_is_final(s: PaceState, started: u64, finished: u64, now: u64)
    requires
        s.phase == PacePhase::Settling,
    ensures
        s.after_step(started, finished) == s,
        s.after_yield(now) == s,
{
}

/// A position on the screen maps into the normalized range, the left or
/// upper edge to its start and the right or lower edge to its end.
pub proof fn lemma_absolute_coordinate_bounds(position: int, extent: int)
    requires
        0 <= position <= extent,
        0 < extent,
    ensures
        0 <= absolute_coordinate(position, extent) <= ABSOLUTE_RANGE,
        absolute_coordinate(0, extent) == 0,
        absolute_coordinate(extent, extent) == ABSOLUTE_RANGE,
{
    assert(0 <= position * 65536 / extent <= 65536) by (nonlinear_arith)
        requires
            0 <= position <= extent,
            0 < extent,
    ;
    assert(extent * 65536 / extent == 65536) by (nonlinear_arith)
        requires
            0 < extent,
    ;
    assert(0int * 65536 / extent == 0) by (nonlinear_arith)
        requires
            0 < extent,
    ;
}

/// Positions further along the screen map further along the normalized
/// range.
pub proof fn lemma_absolute_coordinate_monotonic(a: int, b: int, extent: int)
    requires
        0 <= a <= b,
        0 < extent,
    ensures
        absolute_coordinate(a, extent) <= absolute_coordinate(b, extent),
{
    assert(a * 65536 / extent <= b * 65536 / extent) by (nonlinear_arith)
        requires
            0 <= a <= b,
            0 < extent,
    ;
}

} // verus!
