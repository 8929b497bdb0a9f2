//! The side-drawer variant: the state machine run horizontally with rest at
//! offset zero (drawer closed) and the fully-open position at a configured
//! end offset; a released drag either opens or closes the drawer depending
//! on which side currently has the focus.

use vstd::prelude::*;

verus! {

use crate::drag::{DragAction, DragAngle, DragDirection};
use crate::geom::{clamp_int, dist, in_range};
use crate::state::{spec_handle, NavAction, ReturnType, State};

/// What one frame of the drawer hands back to the host.
pub struct DrawerResponse<R> {
    pub drawer_response: Option<R>,
    pub action: Option<NavAction>,
}

/// A drawer showing `drawer_route` over a dimmed `bg_route`.
pub struct NavDrawer<'a, Route: Clone> {
    id_source: Option<u64>,
    bg_route: &'a Route,
    drawer_route: &'a Route,
    drawer_end_offset: i64,
    navigating: bool,
    returning: bool,
    drawer_focused: bool,
}

/// What the state machine consumes for one frame of a drawer.
#[derive(Clone, Copy, Debug, PartialEq, Eq, Structural)]
pub struct DrawerFrameInput {
    /// The drag interpreter's outcome for this frame.
    pub drag: Option<DragAction>,
    /// The pointer delta along the horizontal axis this frame.
    pub drag_delta: i64,
    /// Whether the dimmed background was clicked this frame.
    pub bg_clicked: bool,
}

/// How a drag outcome arms the drawer. With the drawer focused, a committed
/// release closes it and a short one snaps it back open; with the background
/// focused, a committed release opens the drawer and a short one closes it
/// again.
pub open spec fn spec_drawer_action_of_drag(d: DragAction, drawer_focused: bool) -> NavAction {
    match d {
        DragAction::Dragging => NavAction::Dragging,
        DragAction::DragReleased { threshold_met } => if drawer_focused {
            if threshold_met {
                NavAction::Returning(ReturnType::Drag)
            } else {
                NavAction::Resetting
            }
        } else {
            if threshold_met {
                NavAction::Navigating
            } else {
                NavAction::Returning(ReturnType::Drag)
            }
        },
        DragAction::DragUnrelated => NavAction::Resetting,
    }
}

/// One frame of the drawer state machine, as a value: the new offset, the
/// new action, and whether a repaint must be scheduled.
///
/// In order: a host navigate request arms `Navigating` from the current
/// offset unless a drag is active or the drawer is already navigating;
/// otherwise a host return request snaps the offset to the open end and arms
/// a click return unless already returning; a drag outcome then arms its
/// action; the active action runs one frame between the closed offset `0`
/// (the returned bound) and the open `end_offset` (the navigated bound); and
/// a click on the dimmed background of a visible drawer arms a click return.
pub open spec fn spec_drawer_step(
    navigating: bool,
    returning: bool,
    drawer_focused: bool,
    drag: Option<DragAction>,
    delta: int,
    end_offset: int,
    bg_clicked: bool,
    offset: int,
    action: Option<NavAction>,
) -> (int, Option<NavAction>, bool) {
    let armed = if navigating {
        if action != Some(NavAction::Navigating) && action != Some(NavAction::Dragging) {
            (offset, Some(NavAction::Navigating))
        } else {
            (offset, action)
        }
    } else if returning && !(action matches Some(NavAction::Returning(_))) {
        (end_offset, Some(NavAction::Returning(ReturnType::Click)))
    } else {
        (offset, action)
    };
    let a2 = match drag {
        Some(d) => Some(spec_drawer_action_of_drag(d, drawer_focused)),
        None => armed.1,
    };
    let stepped = match a2 {
        Some(a) => spec_handle(a, armed.0, delta, end_offset, 0),
        None => (armed.0, None, false),
    };
    if stepped.0 != 0 && bg_clicked {
        (stepped.0, Some(NavAction::Returning(ReturnType::Click)), stepped.2)
    } else {
        stepped
    }
}

/// Law: a frame with no drag outcome, no host request and no background
/// click, on an idle drawer, leaves offset and action unchanged and
/// schedules nothing.
pub proof fn lemma_idle_drawer_frame_is_noop(
    drawer_focused: bool,
    delta: int,
    end_offset: int,
    offset: int,
)
    ensures
        spec_drawer_step(false, false, drawer_focused, None, delta, end_offset, false, offset, None)
            == (offset, None::<NavAction>, false),
{
}

/// The dimming overlay over the background of a drawer: nothing while it is
/// closed, growing toward 200 of 255 as it approaches its open end.
pub open spec fn spec_drawer_fade_alpha(offset: int, end_offset: int) -> Option<int> {
    if offset <= 0 {
        None
    } else if end_offset <= 0 {
        Some(200)
    } else {
        Some(clamp_int(offset, 0, end_offset) * 200 / end_offset)
    }
}

/// The dimming overlay strength behind a drawer, or `None` while it is
/// closed.
pub fn drawer_fade_alpha(offset: i64, end_offset: i64) -> (a: Option<u8>)
    requires
        in_range(offset as int),
        in_range(end_offset as int),
    ensures
        (a is Some) == (spec_drawer_fade_alpha(offset as int, end_offset as int) is Some),
        a matches Some(v) ==> Some(v as int) == spec_drawer_fade_alpha(
            offset as int,
            end_offset as int,
        ),
{
    if offset <= 0 {
        return None;
    }
    if end_offset <= 0 {
        return Some(200);
    }
    let c = if offset > end_offset {
        end_offset
    } else {
        offset
    };
    proof {
        let e = end_offset as int;
        let cc = c as int;
        assert(0 <= cc * 200 <= e * 200) by (nonlinear_arith)
            requires
                0 <= cc <= e,
        ;
        vstd::arithmetic::div_mod::lemma_div_is_ordered(cc * 200, e * 200, e);
        vstd::arithmetic::div_mod::lemma_div_by_multiple(200, e);
        vstd::arithmetic::div_mod::lemma_div_pos_is_pos(cc * 200, e);
    }
    Some(((c as u64) * 200 / (end_offset as u64)) as u8)
}

impl<'a, Route: Clone> NavDrawer<'a, Route> {
    pub closed spec fn spec_id_source(&self) -> Option<u64> {
        self.id_source
    }

    pub closed spec fn spec_bg_route(&self) -> Route {
        *self.bg_route
    }

    pub closed spec fn spec_drawer_route(&self) -> Route {
        *self.drawer_route
    }

    pub closed spec fn spec_end_offset(&self) -> i64 {
        self.drawer_end_offset
    }

    pub closed spec fn spec_navigating(&self) -> bool {
        self.navigating
    }

    pub closed spec fn spec_returning(&self) -> bool {
        self.returning
    }

    pub closed spec fn spec_drawer_focused(&self) -> bool {
        self.drawer_focused
    }

    pub fn new(bg_route: &'a Route, drawer_route: &'a Route) -> (drawer: Self)
        ensures
            drawer.spec_bg_route() == *bg_route,
            drawer.spec_drawer_route() == *drawer_route,
            drawer.spec_end_offset() == 0,
            drawer.spec_id_source() is None,
            !drawer.spec_navigating(),
            !drawer.spec_returning(),
            !drawer.spec_drawer_focused(),
    {
        NavDrawer {
            id_source: None,
            bg_route,
            drawer_route,
            drawer_end_offset: 0,
            navigating: false,
            returning: false,
            drawer_focused: false,
        }
    }

    /// Where the drawer's edge sits when fully open.
    pub fn opened_offset(self, drawer_end_x: i64) -> (drawer: Self)
        ensures
            drawer.spec_end_offset() == drawer_end_x,
            drawer.spec_bg_route() == self.spec_bg_route(),
            drawer.spec_drawer_route() == self.spec_drawer_route(),
            drawer.spec_id_source() == self.spec_id_source(),
            drawer.spec_navigating() == self.spec_navigating(),
            drawer.spec_returning() == self.spec_returning(),
            drawer.spec_drawer_focused() == self.spec_drawer_focused(),
    {
        NavDrawer { drawer_end_offset: drawer_end_x, ..self }
    }

    /// A stable discriminator so repeated frames address the same state slot.
    pub fn id_source(self, id: u64) -> (drawer: Self)
        ensures
            drawer.spec_id_source() == Some(id),
            drawer.spec_end_offset() == self.spec_end_offset(),
            drawer.spec_bg_route() == self.spec_bg_route(),
            drawer.spec_drawer_route() == self.spec_drawer_route(),
            drawer.spec_navigating() == self.spec_navigating(),
            drawer.spec_returning() == self.spec_returning(),
            drawer.spec_drawer_focused() == self.spec_drawer_focused(),
    {
        NavDrawer { id_source: Some(id), ..self }
    }

    /// Call this when you have just opened the drawer and want to animate it
    /// into view.
    pub fn navigating(self, navigating: bool) -> (drawer: Self)
        ensures
            drawer.spec_navigating() == navigating,
            drawer.spec_end_offset() == self.spec_end_offset(),
            drawer.spec_bg_route() == self.spec_bg_route(),
            drawer.spec_drawer_route() == self.spec_drawer_route(),
            drawer.spec_id_source() == self.spec_id_source(),
            drawer.spec_returning() == self.spec_returning(),
            drawer.spec_drawer_focused() == self.spec_drawer_focused(),
    {
        NavDrawer { navigating, ..self }
    }

    /// Call this when you have just invoked an action to close the drawer.
    pub fn returning(self, returning: bool) -> (drawer: Self)
        ensures
            drawer.spec_returning() == returning,
            drawer.spec_end_offset() == self.spec_end_offset(),
            drawer.spec_bg_route() == self.spec_bg_route(),
            drawer.spec_drawer_route() == self.spec_drawer_route(),
            drawer.spec_id_source() == self.spec_id_source(),
            drawer.spec_navigating() == self.spec_navigating(),
            drawer.spec_drawer_focused() == self.spec_drawer_focused(),
    {
        NavDrawer { returning, ..self }
    }

    /// Whether the drawer, rather than the content behind it, has the focus;
    /// this flips how drags are interpreted and released.
    pub fn drawer_focused(self, focused: bool) -> (drawer: Self)
        ensures
            drawer.spec_drawer_focused() == focused,
            drawer.spec_end_offset() == self.spec_end_offset(),
            drawer.spec_bg_route() == self.spec_bg_route(),
            drawer.spec_drawer_route() == self.spec_drawer_route(),
            drawer.spec_id_source() == self.spec_id_source(),
            drawer.spec_navigating() == self.spec_navigating(),
            drawer.spec_returning() == self.spec_returning(),
    {
        NavDrawer { drawer_focused: focused, ..self }
    }

    pub fn bg_route(&self) -> (r: &'a Route)
        ensures
            *r == self.spec_bg_route(),
    {
        self.bg_route
    }

    /// Where the drawer's edge sits when fully open.
    pub fn end_offset(&self) -> (r: i64)
        ensures
            r == self.spec_end_offset(),
    {
        self.drawer_end_offset
    }

    pub fn drawer_route(&self) -> (r: &'a Route)
        ensures
            *r == self.spec_drawer_route(),
    {
        self.drawer_route
    }

    /// The directions a drag may move in: any while the drawer has focus,
    /// only the opening direction otherwise.
    pub fn drag_directions(&self) -> (d: DragDirection)
        ensures
            self.spec_drawer_focused() ==> d.left_to_right && d.right_to_left && d.vertical,
            !self.spec_drawer_focused() ==> d.left_to_right && !d.right_to_left && !d.vertical,
    {
        if self.drawer_focused {
            DragDirection::all()
        } else {
            DragDirection::left_to_right()
        }
    }

    /// How vertical motion is weighted: evenly while the drawer has focus,
    /// heavily toward vertical otherwise so a scroll is not mistaken for an
    /// opening drag.
    pub fn drag_angle(&self) -> (a: DragAngle)
        ensures
            self.spec_drawer_focused() ==> a == DragAngle::Balanced,
            !self.spec_drawer_focused() ==> a == DragAngle::VerticalNTimesEasier(5u8),
    {
        if self.drawer_focused {
            DragAngle::Balanced
        } else {
            DragAngle::VerticalNTimesEasier(5)
        }
    }

    /// How far the offset currently is from its rest value: measured from the
    /// open end while the drawer has focus, from the closed edge otherwise.
    pub fn drag_offset_from_rest(&self, state: &State) -> (r: i64)
        requires
            in_range(state.offset as int),
            in_range(self.spec_end_offset() as int),
        ensures
            self.spec_drawer_focused() ==> r == dist(
                state.offset as int,
                self.spec_end_offset() as int,
            ),
            !self.spec_drawer_focused() ==> r == state.offset,
    {
        if self.drawer_focused {
            if state.offset >= self.drawer_end_offset {
                state.offset - self.drawer_end_offset
            } else {
                self.drawer_end_offset - state.offset
            }
        } else {
            state.offset
        }
    }

    /// Fold one frame of drag outcome, host requests and background clicks
    /// into the drawer state; returns whether another frame must be
    /// scheduled.
    pub fn step_frame(&self, state: &mut State, input: &DrawerFrameInput) -> (repaint: bool)
        requires
            in_range(old(state).offset as int),
            in_range(input.drag_delta as int),
            in_range(self.spec_end_offset() as int),
        ensures
            ({
                let (o, a, rp) = spec_drawer_step(
                    self.spec_navigating(),
                    self.spec_returning(),
                    self.spec_drawer_focused(),
                    input.drag,
                    input.drag_delta as int,
                    self.spec_end_offset() as int,
                    input.bg_clicked,
                    old(state).offset as int,
                    old(state).action,
                );
                final(state).offset == o && final(state).action == a && repaint == rp
            }),
            final(state).popped_min_rect == old(state).popped_min_rect,
            in_range(final(state).offset as int),
    {
        // Host requests come first for the drawer: navigating animates open
        // from wherever the drawer is, never pre-empting a drag; returning
        // snaps it open and arms a click return.
        if self.navigating {
            if !matches!(state.action, Some(NavAction::Navigating)) && !matches!(
                state.action,
                Some(NavAction::Dragging),
            ) {
                state.action = Some(NavAction::Navigating);
            }
        } else if self.returning && !matches!(state.action, Some(NavAction::Returning(_))) {
            state.offset = self.drawer_end_offset;
            state.action = Some(NavAction::Returning(ReturnType::Click));
        }
        // A drag outcome then arms its action.
        if let Some(d) = input.drag {
            let armed = match d {
                DragAction::Dragging => NavAction::Dragging,
                DragAction::DragReleased { threshold_met } => if self.drawer_focused {
                    if threshold_met {
                        NavAction::Returning(ReturnType::Drag)
                    } else {
                        NavAction::Resetting
                    }
                } else {
                    if threshold_met {
                        NavAction::Navigating
                    } else {
                        NavAction::Returning(ReturnType::Drag)
                    }
                },
                DragAction::DragUnrelated => NavAction::Resetting,
            };
            state.action = Some(armed);
        }
        // Run the active action between the closed edge 0 and the open end.
        let mut repaint = false;
        if let Some(action) = state.action {
            repaint = action.handle(state, input.drag_delta, self.drawer_end_offset, 0);
        }
        // A click on the dimmed background of a visible drawer closes it.
        if state.offset != 0 && input.bg_clicked {
            state.action = Some(NavAction::Returning(ReturnType::Click));
        }
        repaint
    }
}

} // verus!
