//! What an action does with the result of a search: where to click, what
//! to report, and what to fall back on.
//!
//! A search result is relative to the captured frame. The frame was taken
//! of an area of the display, so the result is translated by that area's
//! origin before anything is done with it.

use vstd::prelude::*;
use crate::matcher::{lemma_matched_rect_inside_source, matched_rect, SearchError, SweepState};
use crate::region::{DisplayArea, Rect};

verus! {

/// The center of `found`, a rectangle relative to `active`, in the
/// coordinates that `active` is given in.
pub open spec fn absolute_center(found: Rect, active: Rect) -> (int, int) {
    found.translated(active.s_x, active.s_y).center()
}

/// Whether the search found the pattern. A search that failed for any
/// reason counts as an absent pattern.
pub fn is_target_on_image(found: &Result<DisplayArea, SearchError>) -> (res: bool)
    ensures
        res == (*found is Ok),
{
    match found {
        Ok(_) => true,
        Err(_) => false,
    }
}

/// The area that a search found, in the coordinates of the display; a
/// failed search is handed on as it is.
pub fn find_object(
    found: Result<DisplayArea, SearchError>,
    active_area: &DisplayArea,
) -> (res: Result<DisplayArea, SearchError>)
    requires
        found matches Ok(area) ==> area@.translated(
            active_area@.s_x,
            active_area@.s_y,
        ).representable(),
    ensures
        match found {
            Ok(area) => res matches Ok(absolute) && absolute@ == area@.translated(
                active_area@.s_x,
                active_area@.s_y,
            ) && (area.wf() ==> absolute.wf()),
            Err(e) => res matches Err(f) && f == e,
        },
{
    match found {
        Ok(area) => Ok(area.from_relative(active_area)),
        Err(e) => Err(e),
    }
}

/// The point to click for a target: the center of what the search found,
/// in display coordinates. Where the search failed, the point is the
/// caller's `fallback`, and without one there is no point to click.
pub fn click_on_target(
    found: &Result<DisplayArea, SearchError>,
    active_area: &DisplayArea,
    fallback: Option<(i32, i32)>,
) -> (res: Option<(i32, i32)>)
    requires
        *found matches Ok(area) ==> area@.translated(
            active_area@.s_x,
            active_area@.s_y,
        ).representable(),
    ensures
        match *found {
            Ok(area) => res matches Some(p) && (p.0 as int, p.1 as int) == absolute_center(
                area@,
                active_area@,
            ),
            Err(_) => res == fallback,
        },
{
    match found {
        Ok(area) => Some(area.from_relative(active_area).get_average_point()),
        Err(_) => fallback,
    }
}

/// The point to click before text is typed into a target: the center of
/// what the search found, in display coordinates. A failed search is
/// handed on, and nothing is clicked or typed.
pub fn input_text_simulated(
    found: &Result<DisplayArea, SearchError>,
    active_area: &DisplayArea,
) -> (res: Result<(i32, i32), SearchError>)
    requires
        *found matches Ok(area) ==> area@.translated(
            active_area@.s_x,
            active_area@.s_y,
        ).representable(),
    ensures
        match *found {
            Ok(area) => res matches Ok(p) && (p.0 as int, p.1 as int) == absolute_center(
                area@,
                active_area@,
            ),
            Err(e) => res matches Err(f) && f == e,
        },
{
    match found {
        Ok(area) => Ok(area.from_relative(active_area).get_average_point()),
        Err(e) => Err(*e),
    }
}

/// An area found inside a frame can be expressed in display coordinates,
/// and its center lies inside the area that the frame was captured from,
/// provided the frame is no larger than that area.
pub proof fn lemma_click_lands_in_active_area(found: Rect, active: Rect, width: int, height: int)
    requires
        active.normalized(),
        active.representable(),
        0 <= found.s_x <= found.e_x <= width <= active.width(),
        0 <= found.s_y <= found.e_y <= height <= active.height(),
    ensures
        found.translated(active.s_x, active.s_y).representable(),
        found.translated(active.s_x, active.s_y).normalized(),
        active.s_x <= absolute_center(found, active).0 <= active.e_x,
        active.s_y <= absolute_center(found, active).1 <= active.e_y,
{
}

/// What a sweep yields on a frame that was captured from an area of the
/// display can always be expressed in display coordinates, and its center
/// lies inside that area, provided the frame is no larger than the area.
pub proof fn lemma_sweep_result_fits_display(s: SweepState, active: Rect)
    requires
        s.wf(),
        active.normalized(),
        active.representable(),
        s.source.width <= active.width(),
        s.source.height <= active.height(),
    ensures
        matched_rect(s.template, s.best).translated(active.s_x, active.s_y).representable(),
        active.s_x <= absolute_center(matched_rect(s.template, s.best), active).0 <= active.e_x,
        active.s_y <= absolute_center(matched_rect(s.template, s.best), active).1 <= active.e_y,
{
    lemma_matched_rect_inside_source(s);
    lemma_click_lands_in_active_area(
        matched_rect(s.template, s.best),
        active,
        s.source.width as int,
        s.source.height as int,
    );
}

} // verus!
