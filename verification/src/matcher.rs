//! Multi-scale template search, as the decisions of one sweep.
//!
//! Correlating pixels is the work of an image library. What is decided here
//! is everything around it: whether the inputs admit a search at all, which
//! sizes of the template are tried and in which order, which of the reported
//! maxima is the best one, and what region, if any, the search yields. A
//! caller asks the sweep for its next action, resizes and correlates where
//! the action is a probe, and hands the maximum of the score surface back.

use vstd::prelude::*;
use crate::region::{DisplayArea, Rect};
use crate::score::Score;

verus! {

/// The smallest scale tried, in tenths: `0.5`.
pub const FIRST_SCALE: u32 = 5;

/// The largest scale tried, in tenths: `2.0`.
pub const LAST_SCALE: u32 = 20;

/// The scale at which the template is taken as it is, in tenths.
pub const UNIT_SCALE: u32 = 10;

/// Width and height of a pixel buffer, in pixels.
#[derive(Clone, Copy, Debug, PartialEq, Eq)]
pub struct FrameSize {
    pub width: i32,
    pub height: i32,
}

impl FrameSize {
    /// The buffer holds no pixel.
    pub open spec fn is_empty_spec(self) -> bool {
        self.width <= 0 || self.height <= 0
    }

    /// Whether the buffer holds no pixel.
    pub fn is_empty(&self) -> (res: bool)
        ensures
            res == self.is_empty_spec(),
    {
        self.width <= 0 || self.height <= 0
    }
}

/// Why a search was refused before any matching.
#[derive(Clone, Copy, Debug, PartialEq, Eq)]
pub enum InputFault {
    EmptySource,
    EmptyTemplate,
    OversizedTemplate,
    ThresholdOutOfRange,
}

/// How a search can end without a region.
#[derive(Clone, Copy, Debug, PartialEq, Eq)]
pub enum SearchError {
    /// The inputs admit no search.
    InvalidInput(InputFault),
    /// The search ran and no candidate cleared the threshold.
    NotFound,
}

/// The maximum of one score surface and where it lies.
#[derive(Clone, Copy, Debug, PartialEq, Eq)]
pub struct Observation {
    pub score: Score,
    pub x: i32,
    pub y: i32,
}

/// An observation together with the scale, in tenths, that produced it.
#[derive(Clone, Copy, Debug, PartialEq, Eq)]
pub struct Candidate {
    pub score: Score,
    pub x: i32,
    pub y: i32,
    pub tenths: u32,
}

/// What the caller of a sweep is to do next.
#[derive(Clone, Copy, Debug, PartialEq, Eq)]
pub enum SweepAction {
    /// Resize the template to `size`, correlate it with the source and
    /// record the maximum of the score surface.
    Probe { tenths: u32, size: FrameSize },
    /// The sweep is over, with this result.
    Finish(Result<DisplayArea, SearchError>),
}

/// `dim` scaled by `tenths / 10` and rounded to the nearest integer, halves
/// away from zero.
pub open spec fn round_scaled(dim: int, tenths: int) -> int {
    let p = dim * tenths;
    if p >= 0 {
        (p + 5) / 10
    } else {
        -((5 - p) / 10)
    }
}

/// `dim` scaled by `tenths / 10` and rounded toward zero.
pub open spec fn trunc_scaled(dim: int, tenths: int) -> int {
    let p = dim * tenths;
    if p >= 0 {
        p / 10
    } else {
        -((-p) / 10)
    }
}

/// `tenths` is one of the sixteen candidate scales.
pub open spec fn is_scale(tenths: int) -> bool {
    FIRST_SCALE <= tenths <= LAST_SCALE
}

/// The first reason, if any, for which a search on these inputs is refused.
pub open spec fn input_fault(
    threshold: Score,
    source: FrameSize,
    template: FrameSize,
) -> Option<InputFault> {
    if source.is_empty_spec() {
        Some(InputFault::EmptySource)
    } else if template.is_empty_spec() {
        Some(InputFault::EmptyTemplate)
    } else if template.height > source.height || template.width > source.width {
        Some(InputFault::OversizedTemplate)
    } else if !threshold.in_unit_interval_spec() {
        Some(InputFault::ThresholdOutOfRange)
    } else {
        None
    }
}

/// The template resized by the scale `tenths` has a pixel and fits into the
/// source, so the scale is tried.
pub open spec fn admissible(source: FrameSize, template: FrameSize, tenths: int) -> bool {
    &&& is_scale(tenths)
    &&& 0 < round_scaled(template.width as int, tenths) <= source.width
    &&& 0 < round_scaled(template.height as int, tenths) <= source.height
}

/// The least admissible scale that is not below `from`, or one past the
/// last scale where there is none.
pub open spec fn next_admissible(source: FrameSize, template: FrameSize, from: int) -> int
    decreases LAST_SCALE + 1 - from,
{
    if from > LAST_SCALE {
        LAST_SCALE + 1
    } else if admissible(source, template, from) {
        from
    } else {
        next_admissible(source, template, from + 1)
    }
}

/// The size to which the template is resized for the scale `tenths`.
pub open spec fn probe_size_spec(template: FrameSize, tenths: int) -> (int, int) {
    (round_scaled(template.width as int, tenths), round_scaled(template.height as int, tenths))
}

/// The point `(x, y)` lies on the score surface that correlating the source
/// with the template at scale `tenths` produces.
pub open spec fn on_surface(source: FrameSize, template: FrameSize, tenths: int, x: int, y: int) -> bool {
    &&& 0 <= x <= source.width - round_scaled(template.width as int, tenths)
    &&& 0 <= y <= source.height - round_scaled(template.height as int, tenths)
}

/// The best candidate before anything was observed: a score below every
/// threshold, at the origin and at the unit scale.
pub open spec fn initial_best() -> Candidate {
    Candidate { score: Score { bits: crate::score::MINUS_ONE_BITS }, x: 0, y: 0, tenths: UNIT_SCALE }
}

/// The best candidate once `observation` at scale `tenths` is weighed
/// against `best`: the newcomer only where it is strictly better.
pub open spec fn weigh(best: Candidate, tenths: int, observation: Observation) -> Candidate {
    if observation.score.exceeds_spec(best.score) {
        Candidate { score: observation.score, x: observation.x, y: observation.y, tenths: tenths as u32 }
    } else {
        best
    }
}

/// The best candidate among the observations of the admissible scales
/// below `upto`, weighed in increasing order of scale.
pub open spec fn best_upto(
    source: FrameSize,
    template: FrameSize,
    observed: Map<int, Observation>,
    upto: int,
) -> Candidate
    decreases upto,
{
    if upto <= FIRST_SCALE {
        initial_best()
    } else {
        let before = best_upto(source, template, observed, upto - 1);
        if admissible(source, template, upto - 1) {
            weigh(before, upto - 1, observed[upto - 1])
        } else {
            before
        }
    }
}

/// The region that a winning candidate describes: anchored at its position,
/// as large as the template scaled by the winning scale, rounded toward zero.
pub open spec fn matched_rect(template: FrameSize, best: Candidate) -> Rect {
    Rect {
        s_x: best.x as int,
        s_y: best.y as int,
        e_x: best.x + trunc_scaled(template.width as int, best.tenths as int),
        e_y: best.y + trunc_scaled(template.height as int, best.tenths as int),
    }
}

/// What a sweep holds, as plain mathematics.
pub struct SweepState {
    pub threshold: Score,
    pub source: FrameSize,
    pub template: FrameSize,
    /// The scale under probe, in tenths; one past the last scale when the
    /// sweep is exhausted.
    pub cursor: int,
    pub best: Candidate,
    /// Each scale probed so far with what was observed at it.
    pub observed: Map<int, Observation>,
}

impl SweepState {
    /// Every scale has been tried or skipped.
    pub open spec fn exhausted(self) -> bool {
        self.cursor > LAST_SCALE
    }

    /// The state in which a sweep on valid inputs begins.
    pub open spec fn initial(threshold: Score, source: FrameSize, template: FrameSize) -> SweepState {
        SweepState {
            threshold,
            source,
            template,
            cursor: next_admissible(source, template, FIRST_SCALE as int),
            best: initial_best(),
            observed: Map::empty(),
        }
    }

    /// The state after `observation` was recorded for the scale under probe.
    pub open spec fn recorded(self, observation: Observation) -> SweepState {
        SweepState {
            cursor: next_admissible(self.source, self.template, self.cursor + 1),
            best: weigh(self.best, self.cursor, observation),
            observed: self.observed.insert(self.cursor, observation),
            ..self
        }
    }

    /// `result` is what the search yields in this state: the region of the
    /// best candidate exactly when its score exceeds the threshold.
    pub open spec fn yields(self, result: Result<DisplayArea, SearchError>) -> bool {
        if self.best.score.exceeds_spec(self.threshold) {
            result matches Ok(area) && area@ == matched_rect(self.template, self.best) && area.wf()
        } else {
            result == Err::<DisplayArea, SearchError>(SearchError::NotFound)
        }
    }

    /// `action` is what a sweep in this state asks of its caller: a probe
    /// at the scale under the cursor, or to finish with the search's result.
    pub open spec fn directs(self, action: SweepAction) -> bool {
        if self.exhausted() {
            action matches SweepAction::Finish(result) && self.yields(result)
        } else {
            action matches SweepAction::Probe { tenths, size } && tenths == self.cursor && (
                size.width as int,
                size.height as int,
            ) == probe_size_spec(self.template, self.cursor)
        }
    }

    /// What holds of every state that a sweep passes through.
    pub open spec fn wf(self) -> bool {
        &&& input_fault(self.threshold, self.source, self.template) is None
        &&& FIRST_SCALE <= self.cursor <= LAST_SCALE + 1
        &&& !self.exhausted() ==> admissible(self.source, self.template, self.cursor)
        &&& forall|t: int|
            FIRST_SCALE <= t < self.cursor && #[trigger] admissible(self.source, self.template, t)
                ==> self.observed.dom().contains(t) && on_surface(
                self.source,
                self.template,
                t,
                self.observed[t].x as int,
                self.observed[t].y as int,
            )
        &&& self.best == best_upto(self.source, self.template, self.observed, self.cursor)
        &&& is_scale(self.best.tenths as int)
        &&& on_surface(
            self.source,
            self.template,
            self.best.tenths as int,
            self.best.x as int,
            self.best.y as int,
        )
    }
}

/// One search in progress.
pub struct ScaleSweep {
    threshold: Score,
    source: FrameSize,
    template: FrameSize,
    cursor: u32,
    best: Candidate,
    observed: Ghost<Map<int, Observation>>,
}

impl View for ScaleSweep {
    type V = SweepState;

    closed spec fn view(&self) -> SweepState {
        SweepState {
            threshold: self.threshold,
            source: self.source,
            template: self.template,
            cursor: self.cursor as int,
            best: self.best,
            observed: self.observed@,
        }
    }
}

/// Scaling by at most the last scale stays far inside 64 bits.
proof fn lemma_product_bounds(dim: int, tenths: int)
    requires
        i32::MIN <= dim <= i32::MAX,
        0 <= tenths <= LAST_SCALE,
    ensures
        -0x10_0000_0000 < dim * tenths < 0x10_0000_0000,
        dim > 0 && tenths > 0 ==> dim * tenths > 0,
        dim >= 0 ==> dim * tenths >= 0,
        dim <= 0 ==> dim * tenths <= 0,
{
    assert(-0x10_0000_0000 < dim * tenths < 0x10_0000_0000) by (nonlinear_arith)
        requires
            -0x8000_0000 <= dim <= 0x7fff_ffff,
            0 <= tenths <= 20,
    ;
    assert(dim > 0 && tenths > 0 ==> dim * tenths > 0) by (nonlinear_arith);
    assert(dim >= 0 ==> dim * tenths >= 0) by (nonlinear_arith)
        requires
            0 <= tenths,
    ;
    assert(dim <= 0 ==> dim * tenths <= 0) by (nonlinear_arith)
        requires
            0 <= tenths,
    ;
}

/// `dim` times `tenths / 10`, rounded to the nearest integer.
fn scale_rounded(dim: i32, tenths: u32) -> (res: i64)
    requires
        tenths <= LAST_SCALE,
    ensures
        res == round_scaled(dim as int, tenths as int),
{
    proof {
        lemma_product_bounds(dim as int, tenths as int);
    }
    let p: i64 = dim as i64 * tenths as i64;
    if p >= 0 {
        (p + 5) / 10
    } else {
        -((5 - p) / 10)
    }
}

/// `dim` times `tenths / 10`, rounded toward zero.
fn scale_truncated(dim: i32, tenths: u32) -> (res: i64)
    requires
        tenths <= LAST_SCALE,
    ensures
        res == trunc_scaled(dim as int, tenths as int),
{
    proof {
        lemma_product_bounds(dim as int, tenths as int);
    }
    let p: i64 = dim as i64 * tenths as i64;
    p / 10
}

/// The size of the template at scale `tenths`, where that scale is tried
/// against this source; `None` where it is skipped.
pub fn probe_size(source: FrameSize, template: FrameSize, tenths: u32) -> (res: Option<FrameSize>)
    ensures
        res is Some <==> admissible(source, template, tenths as int),
        res matches Some(size) ==> (size.width as int, size.height as int) == probe_size_spec(
            template,
            tenths as int,
        ),
{
    if tenths < FIRST_SCALE || tenths > LAST_SCALE {
        return None;
    }
    let width: i64 = scale_rounded(template.width, tenths);
    let height: i64 = scale_rounded(template.height, tenths);
    if width <= 0 || height <= 0 || width > source.width as i64 || height > source.height as i64 {
        None
    } else {
        Some(FrameSize { width: width as i32, height: height as i32 })
    }
}

/// Checks the inputs of a search, in the order in which the faults are
/// reported.
pub fn check_inputs(threshold: Score, source: FrameSize, template: FrameSize) -> (res: Option<InputFault>)
    ensures
        res == input_fault(threshold, source, template),
{
    if source.is_empty() {
        Some(InputFault::EmptySource)
    } else if template.is_empty() {
        Some(InputFault::EmptyTemplate)
    } else if template.height > source.height || template.width > source.width {
        Some(InputFault::OversizedTemplate)
    } else if !threshold.in_unit_interval() {
        Some(InputFault::ThresholdOutOfRange)
    } else {
        None
    }
}

/// The first scale from `from` on that is tried.
fn seek(source: FrameSize, template: FrameSize, from: u32) -> (res: u32)
    requires
        from <= LAST_SCALE + 1,
    ensures
        res == next_admissible(source, template, from as int),
        from <= res <= LAST_SCALE + 1,
{
    let mut t: u32 = from;
    while t <= LAST_SCALE
        invariant
            from <= t <= LAST_SCALE + 1,
            next_admissible(source, template, from as int) == next_admissible(source, template, t as int),
        decreases LAST_SCALE + 1 - t,
    {
        if probe_size(source, template, t).is_some() {
            return t;
        }
        t = t + 1;
    }
    t
}

/// Between a scale and the next admissible one no scale is admissible, and
/// the next admissible one is admissible unless the scales ran out.
pub proof fn lemma_next_admissible(source: FrameSize, template: FrameSize, from: int)
    requires
        from <= LAST_SCALE + 1,
    ensures
        from <= next_admissible(source, template, from) <= LAST_SCALE + 1,
        next_admissible(source, template, from) <= LAST_SCALE ==> admissible(
            source,
            template,
            next_admissible(source, template, from),
        ),
        forall|t: int|
            from <= t < next_admissible(source, template, from) ==> !#[trigger] admissible(
                source,
                template,
                t,
            ),
    decreases LAST_SCALE + 1 - from,
{
    if from <= LAST_SCALE && !admissible(source, template, from) {
        lemma_next_admissible(source, template, from + 1);
    }
}

/// The best candidate below `upto` depends on the observations below
/// `upto` only.
proof fn lemma_best_ignores_later(
    source: FrameSize,
    template: FrameSize,
    a: Map<int, Observation>,
    b: Map<int, Observation>,
    upto: int,
)
    requires
        forall|t: int| FIRST_SCALE <= t < upto ==> a[t] == b[t],
    ensures
        best_upto(source, template, a, upto) == best_upto(source, template, b, upto),
    decreases upto,
{
    if upto > FIRST_SCALE {
        lemma_best_ignores_later(source, template, a, b, upto - 1);
    }
}

/// Scales that are skipped leave the best candidate as it was.
proof fn lemma_best_over_skipped(
    source: FrameSize,
    template: FrameSize,
    observed: Map<int, Observation>,
    from: int,
    upto: int,
)
    requires
        FIRST_SCALE <= from <= upto,
        forall|t: int| from <= t < upto ==> !#[trigger] admissible(source, template, t),
    ensures
        best_upto(source, template, observed, upto) == best_upto(source, template, observed, from),
    decreases upto - from,
{
    if upto > from {
        lemma_best_over_skipped(source, template, observed, from, upto - 1);
    }
}

impl ScaleSweep {
    /// What holds of every sweep that `begin` made and `record` advanced.
    pub open spec fn wf(&self) -> bool {
        self@.wf()
    }

    /// Starts a search for `template` in `source`. The inputs are checked
    /// first, and a refused search never reaches a probe: there is no sweep
    /// to ask for one.
    pub fn begin(
        threshold: Score,
        source: FrameSize,
        template: FrameSize,
    ) -> (res: Result<ScaleSweep, SearchError>)
        ensures
            match input_fault(threshold, source, template) {
                Some(fault) => res matches Err(e) && e == SearchError::InvalidInput(fault),
                None => res matches Ok(sweep) && sweep.wf() && sweep@ == SweepState::initial(
                    threshold,
                    source,
                    template,
                ),
            },
            !threshold.in_unit_interval_spec() ==> res matches Err(SearchError::InvalidInput(_)),
            template.width > source.width || template.height > source.height ==> res matches Err(
                SearchError::InvalidInput(_),
            ),
    {
        match check_inputs(threshold, source, template) {
            Some(fault) => Err(SearchError::InvalidInput(fault)),
            None => {
                let cursor: u32 = seek(source, template, FIRST_SCALE);
                let best = Candidate { score: Score::minus_one(), x: 0, y: 0, tenths: UNIT_SCALE };
                let sweep = ScaleSweep {
                    threshold,
                    source,
                    template,
                    cursor,
                    best,
                    observed: Ghost(Map::empty()),
                };
                proof {
                    lemma_next_admissible(source, template, FIRST_SCALE as int);
                    lemma_best_over_skipped(
                        source,
                        template,
                        Map::empty(),
                        FIRST_SCALE as int,
                        cursor as int,
                    );
                    lemma_unit_scale_is_admissible(threshold, source, template);
                }
                Ok(sweep)
            },
        }
    }

    /// What is to be done next: a probe at the scale under the cursor, or
    /// nothing more, and then the result of the search.
    pub fn action(&self) -> (res: SweepAction)
        requires
            self.wf(),
        ensures
            self@.directs(res),
    {
        if self.cursor <= LAST_SCALE {
            let width: i64 = scale_rounded(self.template.width, self.cursor);
            let height: i64 = scale_rounded(self.template.height, self.cursor);
            SweepAction::Probe {
                tenths: self.cursor,
                size: FrameSize { width: width as i32, height: height as i32 },
            }
        } else {
            SweepAction::Finish(self.outcome())
        }
    }

    /// The result that the search has if it ends in this state: the region
    /// of the best candidate so far where its score exceeds the threshold.
    pub fn outcome(&self) -> (res: Result<DisplayArea, SearchError>)
        requires
            self.wf(),
        ensures
            self@.yields(res),
    {
        if self.best.score.exceeds(&self.threshold) {
            proof {
                lemma_scaled_sizes(self.template.width as int, self.best.tenths as int);
                lemma_scaled_sizes(self.template.height as int, self.best.tenths as int);
            }
            let width: i64 = scale_truncated(self.template.width, self.best.tenths);
            let height: i64 = scale_truncated(self.template.height, self.best.tenths);
            Ok(DisplayArea::from_rectangle(self.best.x, self.best.y, width as u32, height as u32))
        } else {
            Err(SearchError::NotFound)
        }
    }

    /// Whether `observation` can be recorded now: a probe is under way and
    /// the observed position lies on its score surface.
    pub fn accepts(&self, observation: &Observation) -> (res: bool)
        requires
            self.wf(),
        ensures
            res == (!self@.exhausted() && on_surface(
                self@.source,
                self@.template,
                self@.cursor,
                observation.x as int,
                observation.y as int,
            )),
    {
        if self.cursor > LAST_SCALE {
            return false;
        }
        let width: i64 = scale_rounded(self.template.width, self.cursor);
        let height: i64 = scale_rounded(self.template.height, self.cursor);
        0 <= observation.x && observation.x as i64 <= self.source.width as i64 - width && 0
            <= observation.y && observation.y as i64 <= self.source.height as i64 - height
    }

    /// Takes in the maximum of the score surface for the scale under probe
    /// and moves on to the next scale that is tried.
    pub fn record(&mut self, observation: Observation)
        requires
            old(self).wf(),
            !old(self)@.exhausted(),
            on_surface(
                old(self)@.source,
                old(self)@.template,
                old(self)@.cursor,
                observation.x as int,
                observation.y as int,
            ),
        ensures
            final(self).wf(),
            final(self)@ == old(self)@.recorded(observation),
    {
        let ghost before = self@;
        let tenths: u32 = self.cursor;
        if observation.score.exceeds(&self.best.score) {
            self.best = Candidate { score: observation.score, x: observation.x, y: observation.y, tenths };
        }
        self.cursor = seek(self.source, self.template, tenths + 1);
        self.observed = Ghost(before.observed.insert(tenths as int, observation));
        proof {
            let after = self@;
            lemma_next_admissible(before.source, before.template, tenths + 1);
            lemma_best_ignores_later(
                before.source,
                before.template,
                before.observed,
                after.observed,
                tenths as int,
            );
            lemma_best_over_skipped(
                before.source,
                before.template,
                after.observed,
                tenths + 1,
                after.cursor,
            );
            assert(after.observed[tenths as int] == observation);
            assert(best_upto(before.source, before.template, after.observed, tenths + 1) == weigh(
                before.best,
                tenths as int,
                observation,
            ));
            assert forall|t: int|
                FIRST_SCALE <= t < after.cursor && #[trigger] admissible(
                    after.source,
                    after.template,
                    t,
                ) implies after.observed.dom().contains(t) && on_surface(
                after.source,
                after.template,
                t,
                after.observed[t].x as int,
                after.observed[t].y as int,
            ) by {
                if t < tenths {
                    assert(after.observed[t] == before.observed[t]);
                }
            }
        }
    }

    /// The threshold that the search was begun with.
    pub fn threshold(&self) -> (res: Score)
        ensures
            res == self@.threshold,
    {
        self.threshold
    }

    /// The best candidate so far.
    pub fn best(&self) -> (res: Candidate)
        ensures
            res == self@.best,
    {
        self.best
    }
}

/// Scaling rounds as its two forms are named: the rounded size is the
/// integer nearest to the exact one, the greater of two that are equally
/// near, and the truncated size is the greatest integer that is not above
/// the exact one.
pub proof fn lemma_scaled_sizes(dim: int, tenths: int)
    requires
        0 <= dim,
        0 <= tenths,
    ensures
        10 * round_scaled(dim, tenths) - 5 <= dim * tenths < 10 * round_scaled(dim, tenths) + 5,
        10 * trunc_scaled(dim, tenths) <= dim * tenths < 10 * trunc_scaled(dim, tenths) + 10,
        trunc_scaled(dim, tenths) <= round_scaled(dim, tenths) <= trunc_scaled(dim, tenths) + 1,
        round_scaled(dim, UNIT_SCALE as int) == dim,
        trunc_scaled(dim, UNIT_SCALE as int) == dim,
{
    assert(dim * tenths >= 0) by (nonlinear_arith)
        requires
            0 <= dim,
            0 <= tenths,
    ;
}

/// Inputs that admit a search admit the template at its own size: every
/// search makes at least one probe.
pub proof fn lemma_unit_scale_is_admissible(threshold: Score, source: FrameSize, template: FrameSize)
    requires
        input_fault(threshold, source, template) is None,
    ensures
        admissible(source, template, UNIT_SCALE as int),
        probe_size_spec(template, UNIT_SCALE as int) == (template.width as int, template.height as int),
        trunc_scaled(template.width as int, UNIT_SCALE as int) == template.width,
        trunc_scaled(template.height as int, UNIT_SCALE as int) == template.height,
        on_surface(source, template, UNIT_SCALE as int, 0, 0),
{
}

/// The best candidate is the first maximum of what was observed: it is a
/// number, no observation at a scale that was tried exceeds it, and unless
/// it is still the initial candidate it is the observation at its own
/// scale, which no observation at a smaller scale reaches.
pub proof fn lemma_best_is_first_maximum(
    source: FrameSize,
    template: FrameSize,
    observed: Map<int, Observation>,
    upto: int,
)
    ensures
        ({
            let best = best_upto(source, template, observed, upto);
            &&& !best.score.is_nan_spec()
            &&& best.score.reaches_spec(initial_best().score)
            &&& forall|t: int|
                FIRST_SCALE <= t < upto && #[trigger] admissible(source, template, t)
                    ==> !observed[t].score.exceeds_spec(best.score)
            &&& best == initial_best() || {
                &&& FIRST_SCALE <= best.tenths < upto
                &&& admissible(source, template, best.tenths as int)
                &&& best.score == observed[best.tenths as int].score
                &&& best.x == observed[best.tenths as int].x
                &&& best.y == observed[best.tenths as int].y
                &&& forall|t: int|
                    FIRST_SCALE <= t < best.tenths && #[trigger] admissible(source, template, t)
                        ==> !observed[t].score.reaches_spec(best.score)
            }
        }),
    decreases upto,
{
    if upto > FIRST_SCALE {
        lemma_best_is_first_maximum(source, template, observed, upto - 1);
    }
}

/// In every state of a sweep the best candidate is the first maximum of the
/// observations recorded so far.
pub proof fn lemma_sweep_keeps_first_maximum(s: SweepState)
    requires
        s.wf(),
    ensures
        forall|t: int|
            FIRST_SCALE <= t < s.cursor && #[trigger] admissible(s.source, s.template, t)
                ==> !s.observed[t].score.exceeds_spec(s.best.score),
        s.best == initial_best() || {
            &&& FIRST_SCALE <= s.best.tenths < s.cursor
            &&& admissible(s.source, s.template, s.best.tenths as int)
            &&& s.best.score == s.observed[s.best.tenths as int].score
            &&& s.best.x == s.observed[s.best.tenths as int].x
            &&& s.best.y == s.observed[s.best.tenths as int].y
            &&& forall|t: int|
                FIRST_SCALE <= t < s.best.tenths && #[trigger] admissible(s.source, s.template, t)
                    ==> !s.observed[t].score.reaches_spec(s.best.score)
        },
{
    lemma_best_is_first_maximum(s.source, s.template, s.observed, s.cursor);
}

/// A sweep yields a region exactly when the maximum observed at some scale
/// that was tried exceeds the threshold.
pub proof fn lemma_found_iff_observed(s: SweepState)
    requires
        s.wf(),
    ensures
        s.best.score.exceeds_spec(s.threshold) <==> exists|t: int|
            FIRST_SCALE <= t < s.cursor && #[trigger] admissible(s.source, s.template, t)
                && s.observed[t].score.exceeds_spec(s.threshold),
{
    lemma_best_is_first_maximum(s.source, s.template, s.observed, s.cursor);
    if s.best.score.exceeds_spec(s.threshold) {
        assert(s.best != initial_best());
        assert(admissible(s.source, s.template, s.best.tenths as int));
    }
}

/// Every observation that is recorded moves the sweep on to a larger
/// scale, so that a sweep asks for sixteen probes at most.
pub proof fn lemma_record_advances(s: SweepState, observation: Observation)
    requires
        s.wf(),
        !s.exhausted(),
    ensures
        s.cursor < s.recorded(observation).cursor <= LAST_SCALE + 1,
        s.recorded(observation).observed[s.cursor] == observation,
{
    lemma_next_admissible(s.source, s.template, s.cursor + 1);
}

/// The region that a search yields lies inside the source frame.
pub proof fn lemma_matched_rect_inside_source(s: SweepState)
    requires
        s.wf(),
    ensures
        0 <= matched_rect(s.template, s.best).s_x <= matched_rect(s.template, s.best).e_x
            <= s.source.width,
        0 <= matched_rect(s.template, s.best).s_y <= matched_rect(s.template, s.best).e_y
            <= s.source.height,
{
    lemma_scaled_sizes(s.template.width as int, s.best.tenths as int);
    lemma_scaled_sizes(s.template.height as int, s.best.tenths as int);
}

} // verus!
