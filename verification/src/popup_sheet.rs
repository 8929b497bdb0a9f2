//! The modal bottom-sheet variant: the same state machine run on the
//! vertical axis, with the rest offset at a configurable split of the
//! surface height and the fully-displaced offset at its bottom.

use vstd::prelude::*;

verus! {

use crate::drag::DragAction;
use crate::geom::{clamp_int, in_range, in_span, Rect};
use crate::nav::spec_action_of_drag;
use crate::state::{spec_handle, NavAction, ReturnType, State};

/// A whole percentage, between 0 and 100.
#[derive(Copy, Clone, Debug, PartialEq, Eq, Structural)]
pub struct Percent(u8);

impl Percent {
    pub closed spec fn spec_value(&self) -> u8 {
        self.0
    }

    pub open spec fn wf(&self) -> bool {
        self.spec_value() <= 100
    }

    pub fn new(p: u8) -> (r: Option<Self>)
        ensures
            (r is Some) <==> p <= 100,
            r matches Some(pc) ==> pc.spec_value() == p && pc.wf(),
    {
        if p > 100 {
            return None;
        }
        Some(Self(p))
    }

    /// `val` scaled down to this percentage.
    pub fn of(&self, val: i64) -> (r: i64)
        requires
            0 <= val,
            in_span(val as int),
        ensures
            r == val * self.spec_value() / 100,
            0 <= r,
            self.wf() ==> r <= val,
    {
        proof {
            let v = val as int;
            let p = self.spec_value() as int;
            assert(0 <= v * p <= v * 255) by (nonlinear_arith)
                requires
                    0 <= v,
                    0 <= p <= 255,
            ;
            if p <= 100 {
                assert(v * p <= v * 100) by (nonlinear_arith)
                    requires
                        0 <= v,
                        p <= 100,
                ;
                vstd::arithmetic::div_mod::lemma_div_is_ordered(v * p, v * 100, 100);
                vstd::arithmetic::div_mod::lemma_div_by_multiple(v, 100);
            }
            vstd::arithmetic::div_mod::lemma_div_pos_is_pos(v * p, 100);
            vstd::arithmetic::div_mod::lemma_div_is_ordered(v * p, v * 255, 100);
            vstd::arithmetic::div_mod::lemma_div_is_ordered_by_denominator(v * 255, 100, 255);
            vstd::arithmetic::div_mod::lemma_div_by_multiple(v, 255);
        }
        ((val as u64) * (self.0 as u64) / 100) as i64
    }
}

/// What one frame of the sheet hands back to the host.
pub struct PopupResponse<R> {
    pub response: R,
    pub action: Option<NavAction>,
}

/// A bottom sheet showing `fg_route` over a dimmed `bg_route`.
pub struct PopupSheet<'a, Route: Clone> {
    id_source: Option<u64>,
    bg_route: &'a Route,
    fg_route: &'a Route,
    split_percentage: Percent,
    navigating: bool,
    returning: bool,
}

/// What the state machine consumes for one frame of a sheet.
#[derive(Clone, Copy, Debug, PartialEq, Eq, Structural)]
pub struct PopupFrameInput {
    /// The drag interpreter's outcome for this frame.
    pub drag: Option<DragAction>,
    /// The pointer delta along the vertical axis this frame.
    pub drag_delta: i64,
    /// The surface the sheet lives in.
    pub avail: Rect,
    /// Whether the dimmed background was clicked this frame.
    pub bg_clicked: bool,
}

/// One frame of the sheet state machine, as a value: the new offset, the new
/// action, and whether a repaint must be scheduled.
///
/// In order: a drag outcome arms its action; a host navigate request re-arms
/// `Navigating` at the fully-displaced bottom unless a drag is active or the
/// sheet is already navigating; otherwise a host return request snaps the
/// offset to rest and arms a click return unless already returning; the
/// active action runs one frame between rest and the bottom; and a click on
/// the dimmed background arms a click return.
pub open spec fn spec_popup_step(
    navigating: bool,
    returning: bool,
    drag: Option<DragAction>,
    delta: int,
    rest_offset: int,
    max_size: int,
    bg_clicked: bool,
    offset: int,
    action: Option<NavAction>,
) -> (int, Option<NavAction>, bool) {
    let a1 = match drag {
        Some(d) => Some(spec_action_of_drag(d)),
        None => action,
    };
    let armed = if navigating {
        if a1 != Some(NavAction::Navigating) && a1 != Some(NavAction::Dragging) {
            (max_size, Some(NavAction::Navigating))
        } else {
            (offset, a1)
        }
    } else if returning && !(a1 matches Some(NavAction::Returning(_))) {
        (rest_offset, Some(NavAction::Returning(ReturnType::Click)))
    } else {
        (offset, a1)
    };
    let stepped = match armed.1 {
        Some(a) => spec_handle(a, armed.0, delta, rest_offset, max_size),
        None => (armed.0, None, false),
    };
    if bg_clicked {
        (stepped.0, Some(NavAction::Returning(ReturnType::Click)), stepped.2)
    } else {
        stepped
    }
}

/// Law: a frame with no drag outcome, no host request and no background
/// click, on an idle sheet, leaves offset and action unchanged and schedules
/// nothing.
pub proof fn lemma_idle_sheet_frame_is_noop(
    delta: int,
    rest_offset: int,
    max_size: int,
    offset: int,
)
    ensures
        spec_popup_step(false, false, None, delta, rest_offset, max_size, false, offset, None)
            == (offset, None::<NavAction>, false),
{
}

/// The dimming overlay over the background of a sheet: nothing when the
/// sheet sits at the bottom, full strength as its top approaches the top.
pub open spec fn spec_popup_fade_alpha(offset: int, max_size: int) -> int {
    if max_size <= 0 {
        0
    } else {
        clamp_int(max_size - offset, 0, max_size) * 255 / max_size
    }
}

/// The dimming overlay strength behind the sheet.
pub fn popup_fade_alpha(offset: i64, max_size: i64) -> (a: u8)
    requires
        in_range(offset as int),
        in_range(max_size as int),
    ensures
        a as int == spec_popup_fade_alpha(offset as int, max_size as int),
{
    if max_size <= 0 {
        return 0;
    }
    let c = if max_size - offset < 0 {
        0
    } else if max_size - offset > max_size {
        max_size
    } else {
        max_size - offset
    };
    proof {
        let m = max_size as int;
        let cc = c as int;
        assert(cc * 255 <= m * 255) by (nonlinear_arith)
            requires
                0 <= cc <= m,
        ;
        vstd::arithmetic::div_mod::lemma_div_is_ordered(cc * 255, m * 255, m);
        vstd::arithmetic::div_mod::lemma_div_by_multiple(255, m);
        vstd::arithmetic::div_mod::lemma_div_pos_is_pos(cc * 255, m);
    }
    ((c as u64) * 255 / (max_size as u64)) as u8
}

/// The release threshold of a sheet: a quarter of its height at rest.
pub fn popup_drag_threshold(rest_offset: i64, max_size: i64) -> (t: i64)
    requires
        rest_offset <= max_size,
        in_range(rest_offset as int),
        in_range(max_size as int),
    ensures
        t == (max_size - rest_offset) as int / 4,
{
    (((max_size - rest_offset) as u64) / 4) as i64
}

impl<'a, Route: Clone> PopupSheet<'a, Route> {
    pub closed spec fn spec_id_source(&self) -> Option<u64> {
        self.id_source
    }

    pub closed spec fn spec_bg_route(&self) -> Route {
        *self.bg_route
    }

    pub closed spec fn spec_fg_route(&self) -> Route {
        *self.fg_route
    }

    pub closed spec fn spec_split(&self) -> u8 {
        self.split_percentage.spec_value()
    }

    pub closed spec fn spec_navigating(&self) -> bool {
        self.navigating
    }

    pub closed spec fn spec_returning(&self) -> bool {
        self.returning
    }

    /// The split percentage stays a percentage.
    pub open spec fn wf(&self) -> bool {
        self.spec_split() <= 100
    }

    pub fn new(bg_route: &'a Route, fg_route: &'a Route) -> (sheet: Self)
        ensures
            sheet.wf(),
            sheet.spec_bg_route() == *bg_route,
            sheet.spec_fg_route() == *fg_route,
            sheet.spec_split() == 50,
            sheet.spec_id_source() is None,
            !sheet.spec_navigating(),
            !sheet.spec_returning(),
    {
        PopupSheet {
            bg_route,
            fg_route,
            split_percentage: Percent(50),
            navigating: false,
            returning: false,
            id_source: None,
        }
    }

    /// Where the sheet's top rests, as a share of the surface height measured
    /// from its top.
    pub fn with_split_percent_from_top(self, percent: Percent) -> (sheet: Self)
        ensures
            sheet.spec_split() == percent.spec_value(),
            percent.wf() ==> sheet.wf(),
            sheet.spec_bg_route() == self.spec_bg_route(),
            sheet.spec_fg_route() == self.spec_fg_route(),
            sheet.spec_id_source() == self.spec_id_source(),
            sheet.spec_navigating() == self.spec_navigating(),
            sheet.spec_returning() == self.spec_returning(),
    {
        PopupSheet { split_percentage: percent, ..self }
    }

    /// A stable discriminator so repeated frames address the same state slot.
    pub fn id_source(self, id: u64) -> (sheet: Self)
        ensures
            sheet.spec_id_source() == Some(id),
            sheet.spec_split() == self.spec_split(),
            sheet.spec_bg_route() == self.spec_bg_route(),
            sheet.spec_fg_route() == self.spec_fg_route(),
            sheet.spec_navigating() == self.spec_navigating(),
            sheet.spec_returning() == self.spec_returning(),
    {
        PopupSheet { id_source: Some(id), ..self }
    }

    /// Call this when you have just opened the sheet and want to animate it
    /// into view.
    pub fn navigating(self, navigating: bool) -> (sheet: Self)
        ensures
            sheet.spec_navigating() == navigating,
            sheet.spec_split() == self.spec_split(),
            sheet.spec_bg_route() == self.spec_bg_route(),
            sheet.spec_fg_route() == self.spec_fg_route(),
            sheet.spec_id_source() == self.spec_id_source(),
            sheet.spec_returning() == self.spec_returning(),
    {
        PopupSheet { navigating, ..self }
    }

    /// Call this when you have just invoked an action to dismiss the sheet.
    pub fn returning(self, returning: bool) -> (sheet: Self)
        ensures
            sheet.spec_returning() == returning,
            sheet.spec_split() == self.spec_split(),
            sheet.spec_bg_route() == self.spec_bg_route(),
            sheet.spec_fg_route() == self.spec_fg_route(),
            sheet.spec_id_source() == self.spec_id_source(),
            sheet.spec_navigating() == self.spec_navigating(),
    {
        PopupSheet { returning, ..self }
    }

    pub fn bg_route(&self) -> (r: &'a Route)
        ensures
            *r == self.spec_bg_route(),
    {
        self.bg_route
    }

    pub fn fg_route(&self) -> (r: &'a Route)
        ensures
            *r == self.spec_fg_route(),
    {
        self.fg_route
    }

    /// The offset of the sheet's top when it rests open.
    pub open spec fn spec_rest_offset(&self, avail: Rect) -> int {
        avail.min.y + (avail.max.y - avail.min.y) * self.spec_split() / 100
    }

    /// Where the sheet's top rests: the configured split of the surface
    /// height, measured from its top.
    pub fn rest_offset(&self, avail: &Rect) -> (r: i64)
        requires
            self.wf(),
            avail.spec_in_range(),
            avail.min.y <= avail.max.y,
        ensures
            r == self.spec_rest_offset(*avail),
            avail.min.y <= r <= avail.max.y,
    {
        avail.top() + self.split_percentage.of(avail.max.y - avail.min.y)
    }

    /// The state of a sheet shown for the first time: resting open, idle.
    pub fn initial_state(&self, avail: &Rect) -> (s: State)
        requires
            self.wf(),
            avail.spec_in_range(),
            avail.min.y <= avail.max.y,
        ensures
            s.offset == self.spec_rest_offset(*avail),
            s.action is None,
            s.popped_min_rect is None,
    {
        State { offset: self.rest_offset(avail), action: None, popped_min_rect: None }
    }

    /// Fold one frame of drag outcome, host requests and background clicks
    /// into the sheet state; returns whether another frame must be scheduled.
    pub fn step_frame(&self, state: &mut State, input: &PopupFrameInput) -> (repaint: bool)
        requires
            self.wf(),
            input.avail.spec_in_range(),
            input.avail.min.y <= input.avail.max.y,
            in_range(old(state).offset as int),
            in_range(input.drag_delta as int),
        ensures
            ({
                let (o, a, rp) = spec_popup_step(
                    self.spec_navigating(),
                    self.spec_returning(),
                    input.drag,
                    input.drag_delta as int,
                    self.spec_rest_offset(input.avail),
                    input.avail.max.y as int,
                    input.bg_clicked,
                    old(state).offset as int,
                    old(state).action,
                );
                final(state).offset == o && final(state).action == a && repaint == rp
            }),
            final(state).popped_min_rect == old(state).popped_min_rect,
            in_range(final(state).offset as int),
    {
        let rest = self.rest_offset(&input.avail);
        let max_size = input.avail.bottom();
        // A drag outcome arms its action.
        if let Some(d) = input.drag {
            let armed = match d {
                DragAction::Dragging => NavAction::Dragging,
                DragAction::DragReleased { threshold_met } => if threshold_met {
                    NavAction::Returning(ReturnType::Drag)
                } else {
                    NavAction::Resetting
                },
                DragAction::DragUnrelated => NavAction::Resetting,
            };
            state.action = Some(armed);
        }
        // Host requests: navigating re-arms from the bottom, never pre-empting
        // a drag; returning snaps to rest and arms a click return.
        if self.navigating {
            if !matches!(state.action, Some(NavAction::Navigating)) && !matches!(
                state.action,
                Some(NavAction::Dragging),
            ) {
                state.offset = max_size;
                state.action = Some(NavAction::Navigating);
            }
        } else if self.returning && !matches!(state.action, Some(NavAction::Returning(_))) {
            state.offset = rest;
            state.action = Some(NavAction::Returning(ReturnType::Click));
        }
        // Run the active action between rest and the bottom.
        let mut repaint = false;
        if let Some(action) = state.action {
            repaint = action.handle(state, input.drag_delta, rest, max_size);
        }
        // A click on the dimmed background dismisses the sheet.
        if input.bg_clicked {
            state.action = Some(NavAction::Returning(ReturnType::Click));
        }
        repaint
    }
}

} // verus!
