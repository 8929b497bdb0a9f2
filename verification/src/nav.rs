//! The forward stack navigator: the public entry point that shows the top of
//! a route stack, folds drag outcomes and host navigate/return requests into
//! the per-surface state once per frame, and decides the layering (clip,
//! translation, fade) for the background and foreground render passes.

use vstd::prelude::*;

verus! {

use crate::drag::DragAction;
use crate::geom::{clamp_int, in_range, in_span, Rect};
use crate::spring::{spec_springy, spring_steps, spring_done, spring_next};
use crate::state::{spec_handle, NavAction, ReturnType, State};
use crate::util::arr_top_n;

/// A navigation surface over a borrowed route stack. The stack is owned by
/// the host; the navigator only reads it for the duration of one frame.
pub struct Nav<'a, Route: Clone> {
    id_source: Option<u64>,
    route: &'a [Route],
    navigating: bool,
    returning: bool,
}

/// What the state machine consumes for one frame of a stack navigator.
#[derive(Clone, Copy, Debug, PartialEq, Eq, Structural)]
pub struct NavFrameInput {
    /// The drag interpreter's outcome for this frame.
    pub drag: Option<DragAction>,
    /// The pointer delta along the navigation axis this frame.
    pub drag_delta: i64,
    /// The width of the surface: the fully-displaced bound of the offset.
    pub width: i64,
}

impl NavFrameInput {
    pub open spec fn spec_in_range(&self) -> bool {
        in_range(self.drag_delta as int) && in_range(self.width as int)
    }
}

/// What one frame of the navigator hands back to the host.
pub struct NavResponse<R> {
    pub response: R,
    pub title_response: R,
    pub action: Option<NavAction>,
    /// Surfaces an outer navigator exposes for takeover of its drag claim.
    pub can_take_drag_from: Vec<u64>,
}

/// What the host's render callback hands back for one route pass.
pub struct RouteResponse<R> {
    pub response: R,
    pub can_take_drag_from: Vec<u64>,
}

/// How a drag outcome arms the stack navigator: an in-progress gesture keeps
/// dragging; a release commits the return when the threshold was met and
/// snaps back otherwise; an unrelated gesture resets.
pub open spec fn spec_action_of_drag(d: DragAction) -> NavAction {
    match d {
        DragAction::Dragging => NavAction::Dragging,
        DragAction::DragReleased { threshold_met } => if threshold_met {
            NavAction::Returning(ReturnType::Drag)
        } else {
            NavAction::Resetting
        },
        DragAction::DragUnrelated => NavAction::Resetting,
    }
}

/// One frame of the navigation state machine, as a value: the new offset,
/// the new action, and whether a repaint must be scheduled.
///
/// In order: a drag outcome arms its action (only when the stack has a
/// previous route to return to); a host navigate request re-arms
/// `Navigating` at the fully-displaced offset unless a drag is active or the
/// surface is already navigating; otherwise a host return request arms
/// `Returning` unless already returning; the active action then runs one
/// frame between rest `0` and fully-displaced `width`; and a completed
/// return leaves the offset at rest for the new top route.
pub open spec fn spec_nav_step(
    routes_len: int,
    navigating: bool,
    returning: bool,
    drag: Option<DragAction>,
    delta: int,
    width: int,
    offset: int,
    action: Option<NavAction>,
) -> (int, Option<NavAction>, bool) {
    let a1 = match drag {
        Some(d) => if routes_len > 1 {
            Some(spec_action_of_drag(d))
        } else {
            action
        },
        None => action,
    };
    let armed = if navigating {
        if a1 != Some(NavAction::Navigating) && a1 != Some(NavAction::Dragging) {
            (width, Some(NavAction::Navigating))
        } else {
            (offset, a1)
        }
    } else if returning && !(a1 matches Some(NavAction::Returning(_))) {
        (offset, Some(NavAction::Returning(ReturnType::Click)))
    } else {
        (offset, a1)
    };
    let stepped = match armed.1 {
        Some(a) => spec_handle(a, armed.0, delta, 0, width),
        None => (armed.0, None, false),
    };
    if stepped.1 matches Some(NavAction::Returned(_)) {
        (0, stepped.1, stepped.2)
    } else {
        stepped
    }
}

/// The leftward parallax shift of the background layer: a tenth of the
/// previous layer's width, eased back in by the springy factor of the
/// offset, never shifting rightward.
pub open spec fn spec_parallax_shift(popped_width: int, offset: int) -> int {
    let amt = -(popped_width / 10) + spec_springy(offset);
    if amt > 0 {
        0
    } else {
        amt
    }
}

/// The dimming overlay over the background: full strength (50 of 255) when
/// covered, fading to nothing as the offset approaches the full width.
pub open spec fn spec_nav_fade_alpha(offset: int, width: int) -> int {
    if width <= 0 {
        0
    } else {
        clamp_int((width - offset) * 50 / width, 0, 255)
    }
}

/// The dimming overlay strength for the background pass.
pub fn nav_fade_alpha(offset: i64, width: i64) -> (a: u8)
    requires
        in_span(offset as int),
        0 <= width,
        in_span(width as int),
    ensures
        a as int == spec_nav_fade_alpha(offset as int, width as int),
{
    if width <= 0 {
        return 0;
    }
    let num = width - offset;
    if num <= 0 {
        proof {
            vstd::arithmetic::div_mod::lemma_div_is_ordered(num * 50, 0, width as int);
            vstd::arithmetic::div_mod::lemma_div_of0(width as int);
        }
        return 0;
    }
    let v = ((num as u64) * 50 / (width as u64)) as i64;
    if v > 255 {
        255
    } else {
        v as u8
    }
}

/// The release threshold of a stack navigator: a quarter of the content
/// width.
pub fn nav_drag_threshold(content_width: i64) -> (t: i64)
    requires
        0 <= content_width,
        in_range(content_width as int),
    ensures
        t == content_width as int / 4,
{
    ((content_width as u64) / 4) as i64
}

/// The layering decisions for the background render pass of a transition.
#[derive(Clone, Copy, Debug, PartialEq, Eq, Structural)]
pub struct NavBackgroundPlan {
    /// Parallax translation of the background layer along the axis.
    pub translate_x: i64,
    /// The portion of the surface the current offset exposes.
    pub clip: Rect,
    /// Dimming overlay strength painted over the background.
    pub fade_alpha: u8,
}

/// The layering decisions for the foreground render pass.
#[derive(Clone, Copy, Debug, PartialEq, Eq, Structural)]
pub struct NavForegroundPlan {
    /// The foreground moves with the offset along the axis.
    pub translate_x: i64,
    /// The remaining covered portion of the surface.
    pub clip: Rect,
    /// A transition needs a compositing layer of its own; at rest the
    /// surface's stable layer is reused so scroll and hit-testing state owned
    /// by the host survive.
    pub fresh_layer: bool,
}

/// The per-frame render orchestration: whether a background pass is needed at
/// all, and the geometry of both passes.
#[derive(Clone, Copy, Debug, PartialEq, Eq, Structural)]
pub struct NavRenderPlan {
    pub background: Option<NavBackgroundPlan>,
    pub foreground: NavForegroundPlan,
}

impl<'a, Route: Clone> Nav<'a, Route> {
    pub closed spec fn routes_view(&self) -> Seq<Route> {
        self.route@
    }

    pub closed spec fn spec_id_source(&self) -> Option<u64> {
        self.id_source
    }

    pub closed spec fn spec_navigating(&self) -> bool {
        self.navigating
    }

    pub closed spec fn spec_returning(&self) -> bool {
        self.returning
    }

    /// A navigator always has at least one route.
    pub open spec fn wf(&self) -> bool {
        self.routes_view().len() >= 1
    }

    /// A navigator over a non-empty route stack; constructing one from an
    /// empty stack is a precondition violation.
    pub fn new(route: &'a [Route]) -> (nav: Self)
        requires
            route@.len() >= 1,
        ensures
            nav.wf(),
            nav.routes_view() == route@,
            nav.spec_id_source() is None,
            !nav.spec_navigating(),
            !nav.spec_returning(),
    {
        Nav { id_source: None, route, navigating: false, returning: false }
    }

    /// The non-panicking constructor variant: an empty stack gives `None`.
    pub fn try_new(route: &'a [Route]) -> (nav: Option<Self>)
        ensures
            route@.len() >= 1 <==> nav is Some,
            nav matches Some(n) ==> n.wf() && n.routes_view() == route@ && n.spec_id_source()
                is None && !n.spec_navigating() && !n.spec_returning(),
    {
        if route.len() >= 1 {
            Some(Self::new(route))
        } else {
            None
        }
    }

    /// A stable discriminator so repeated frames address the same state slot.
    pub fn id_source(self, id: u64) -> (nav: Self)
        ensures
            nav.spec_id_source() == Some(id),
            nav.routes_view() == self.routes_view(),
            nav.spec_navigating() == self.spec_navigating(),
            nav.spec_returning() == self.spec_returning(),
    {
        Nav { id_source: Some(id), ..self }
    }

    /// Call this when you have just pushed a new value to your route stack
    /// and want to animate to the new view.
    pub fn navigating(self, navigating: bool) -> (nav: Self)
        ensures
            nav.spec_navigating() == navigating,
            nav.routes_view() == self.routes_view(),
            nav.spec_id_source() == self.spec_id_source(),
            nav.spec_returning() == self.spec_returning(),
    {
        Nav { navigating, ..self }
    }

    /// Call this when you have just invoked an action to return to the
    /// previous view.
    pub fn returning(self, returning: bool) -> (nav: Self)
        ensures
            nav.spec_returning() == returning,
            nav.routes_view() == self.routes_view(),
            nav.spec_id_source() == self.spec_id_source(),
            nav.spec_navigating() == self.spec_navigating(),
    {
        Nav { returning, ..self }
    }

    pub fn routes(&self) -> (r: &'a [Route])
        ensures
            r@ == self.routes_view(),
    {
        self.route
    }

    /// The top of the stack; a navigator guarantees at least one route.
    pub fn top(&self) -> (r: &Route)
        requires
            self.wf(),
        ensures
            *r == self.routes_view().last(),
    {
        vstd::slice::slice_index_get(self.route, self.route.len() - 1)
    }

    /// The route at some position near the top of the stack: `top_n(0)` is
    /// the top route, `top_n(1)` the one immediately before it.
    pub fn top_n(&self, n: usize) -> (r: Option<&Route>)
        ensures
            (r is Some) <==> n < self.routes_view().len(),
            r matches Some(t) ==> *t == self.routes_view()[self.routes_view().len() - 1 - n],
    {
        arr_top_n(self.route, n)
    }

    /// Fold one frame of drag outcome and host requests into the surface
    /// state; returns whether another frame must be scheduled because an
    /// animation is still running.
    pub fn step_frame(&self, state: &mut State, input: &NavFrameInput) -> (repaint: bool)
        requires
            in_range(old(state).offset as int),
            input.spec_in_range(),
        ensures
            ({
                let (o, a, rp) = spec_nav_step(
                    self.routes_view().len() as int,
                    self.spec_navigating(),
                    self.spec_returning(),
                    input.drag,
                    input.drag_delta as int,
                    input.width as int,
                    old(state).offset as int,
                    old(state).action,
                );
                final(state).offset == o && final(state).action == a && repaint == rp
            }),
            final(state).popped_min_rect == old(state).popped_min_rect,
            in_range(final(state).offset as int),
    {
        // A drag outcome arms its action; only a stack with a previous route
        // handles dragging at all.
        if self.route.len() > 1 {
            if let Some(d) = input.drag {
                let armed = match d {
                    DragAction::Dragging => NavAction::Dragging,
                    DragAction::DragReleased { threshold_met } => if threshold_met {
                        NavAction::Returning(ReturnType::Drag)
                    } else {
                        NavAction::Resetting
                    },
                    DragAction::DragUnrelated => NavAction::Resetting,
                };
                state.action = Some(armed);
            }
        }
        // A navigate request re-arms at the fully-displaced offset, but never
        // pre-empts an active drag; a return request arms a click return
        // unless one is already running.
        if self.navigating {
            if !matches!(state.action, Some(NavAction::Navigating)) && !matches!(
                state.action,
                Some(NavAction::Dragging),
            ) {
                state.offset = input.width;
                state.action = Some(NavAction::Navigating);
            }
        } else if self.returning && !matches!(state.action, Some(NavAction::Returning(_))) {
            state.action = Some(NavAction::Returning(ReturnType::Click));
        }
        // Run the active action between rest 0 and fully-displaced width.
        let mut repaint = false;
        if let Some(action) = state.action {
            repaint = action.handle(state, input.drag_delta, 0, input.width);
        }
        // A completed return leaves the surface at rest for the new top route.
        if matches!(state.action, Some(NavAction::Returned(_))) {
            state.offset = 0;
        }
        repaint
    }

    /// Decide the render passes for this frame: during a transition the
    /// previous route is rendered beneath the foreground, clipped to the
    /// exposed portion, shifted by the parallax amount and dimmed; the
    /// foreground always renders at the offset, clipped to what it still
    /// covers.
    pub fn render_plan(&self, state: &State, avail: &Rect) -> (plan: NavRenderPlan)
        requires
            avail.spec_in_range(),
            avail.min.x <= avail.max.x,
            in_range(state.offset as int),
            state.popped_min_rect matches Some(r) ==> r.spec_in_range() && r.min.x <= r.max.x,
        ensures
            (plan.background is Some) == state.spec_is_transitioning(),
            plan.background matches Some(bg) ==> ({
                let pw = match state.popped_min_rect {
                    Some(r) => r.max.x - r.min.x,
                    None => avail.max.x - avail.min.x,
                };
                &&& bg.translate_x == spec_parallax_shift(pw as int, state.offset as int)
                &&& bg.clip.min.x == avail.min.x - bg.translate_x
                &&& bg.clip.min.y == avail.min.y
                &&& bg.clip.max.x == avail.min.x - bg.translate_x + state.offset
                &&& bg.clip.max.y == avail.min.y + avail.max.y
                &&& bg.fade_alpha as int == spec_nav_fade_alpha(
                    state.offset as int,
                    avail.max.x - avail.min.x,
                )
            }),
            plan.foreground.translate_x == state.offset,
            plan.foreground.clip.min == avail.min,
            plan.foreground.clip.max.x == avail.max.x - state.offset,
            plan.foreground.clip.max.y == avail.min.y + avail.max.y,
            plan.foreground.fresh_layer == state.spec_is_transitioning(),
    {
        let transitioning = state.is_transitioning();
        let background = if transitioning {
            let pw = match state.popped_min_rect {
                Some(r) => r.max.x - r.min.x,
                None => avail.max.x - avail.min.x,
            };
            let shift = ((pw as u64) / 10) as i64;
            let eased = crate::spring::springy(state.offset) - shift;
            let translate_x = if eased > 0 {
                0
            } else {
                eased
            };
            let clip = Rect::from_min_size(
                crate::geom::Pos { x: avail.min.x - translate_x, y: avail.min.y },
                state.offset,
                avail.max.y,
            );
            Some(
                NavBackgroundPlan {
                    translate_x,
                    clip,
                    fade_alpha: nav_fade_alpha(state.offset, avail.max.x - avail.min.x),
                },
            )
        } else {
            None
        };
        let fg_clip = Rect::from_min_size(
            avail.min,
            avail.max.x - avail.min.x - state.offset,
            avail.max.y,
        );
        NavRenderPlan {
            background,
            foreground: NavForegroundPlan {
                translate_x: state.offset,
                clip: fg_clip,
                fresh_layer: transitioning,
            },
        }
    }
}

/// Law: a frame with no drag outcome and no host request, on an idle surface,
/// leaves offset and action unchanged and schedules nothing.
pub proof fn lemma_idle_frame_is_noop(routes_len: int, delta: int, width: int, offset: int)
    ensures
        spec_nav_step(routes_len, false, false, None, delta, width, offset, None) == (
            offset,
            None::<NavAction>,
            false,
        ),
{
}

/// Law: one dragging frame puts the offset inside the closed interval between
/// rest and fully displaced, whatever the delta and the starting offset.
pub proof fn lemma_drag_step_clamped(
    routes_len: int,
    delta: int,
    width: int,
    offset: int,
    action: Option<NavAction>,
)
    requires
        routes_len > 1,
        width >= 0,
    ensures
        ({
            let (o, a, rp) = spec_nav_step(
                routes_len,
                false,
                false,
                Some(DragAction::Dragging),
                delta,
                width,
                offset,
                action,
            );
            0 <= o <= width && a == Some(NavAction::Dragging)
        }),
{
}

/// The state after folding a whole sequence of dragging frames.
pub open spec fn spec_drag_sequence(
    routes_len: int,
    width: int,
    offset: int,
    action: Option<NavAction>,
    deltas: Seq<int>,
) -> (int, Option<NavAction>)
    decreases deltas.len(),
{
    if deltas.len() == 0 {
        (offset, action)
    } else {
        let s = spec_nav_step(
            routes_len,
            false,
            false,
            Some(DragAction::Dragging),
            deltas[0],
            width,
            offset,
            action,
        );
        spec_drag_sequence(routes_len, width, s.0, s.1, deltas.subrange(1, deltas.len() as int))
    }
}

/// Law: for every sequence of drag deltas, the offset ends clamped within
/// the interval between rest and fully displaced.
pub proof fn lemma_drag_sequence_clamped(
    routes_len: int,
    width: int,
    offset: int,
    action: Option<NavAction>,
    deltas: Seq<int>,
)
    requires
        routes_len > 1,
        width >= 0,
        deltas.len() >= 1,
    ensures
        ({
            let (o, a) = spec_drag_sequence(routes_len, width, offset, action, deltas);
            0 <= o <= width
        }),
    decreases deltas.len(),
{
    let tail = deltas.subrange(1, deltas.len() as int);
    let s = spec_nav_step(
        routes_len,
        false,
        false,
        Some(DragAction::Dragging),
        deltas[0],
        width,
        offset,
        action,
    );
    lemma_drag_step_clamped(routes_len, deltas[0], width, offset, action);
    if deltas.len() > 1 {
        lemma_drag_sequence_clamped(routes_len, width, s.0, s.1, tail);
    } else {
        assert(tail.len() == 0);
        assert(spec_drag_sequence(routes_len, width, s.0, s.1, tail) == (s.0, s.1));
    }
}

/// The state after `k` frames with the host requesting navigation and no
/// drag input.
pub open spec fn spec_navigate_frames(
    routes_len: int,
    delta: int,
    width: int,
    offset: int,
    action: Option<NavAction>,
    k: nat,
) -> (int, Option<NavAction>)
    decreases k,
{
    if k == 0 {
        (offset, action)
    } else {
        let s = spec_nav_step(routes_len, true, false, None, delta, width, offset, action);
        spec_navigate_frames(routes_len, delta, width, s.0, s.1, (k - 1) as nat)
    }
}

/// Law (round trip): a surface armed `Navigating` at any offset at or above
/// rest, stepped while the host keeps requesting navigation, reaches
/// `Navigated` with the offset snapped exactly to rest after one frame more
/// than the spring takes to settle.
pub proof fn lemma_navigating_round_trip(routes_len: int, delta: int, width: int, offset: int)
    requires
        offset >= 0,
    ensures
        spec_navigate_frames(
            routes_len,
            delta,
            width,
            offset,
            Some(NavAction::Navigating),
            spring_steps(offset, 0, offset > 0) + 1,
        ) == (0int, Some(NavAction::Navigated)),
    decreases spring_steps(offset, 0, offset > 0),
{
    let left = offset > 0;
    let s = spec_nav_step(
        routes_len,
        true,
        false,
        None,
        delta,
        width,
        offset,
        Some(NavAction::Navigating),
    );
    if spring_done(offset, 0, left) {
        assert(spring_steps(offset, 0, left) == 0);
        assert(s == (0int, Some(NavAction::Navigated), false));
        assert(spec_navigate_frames(
            routes_len,
            delta,
            width,
            0,
            Some(NavAction::Navigated),
            0,
        ) == (0int, Some(NavAction::Navigated)));
    } else {
        crate::spring::lemma_spring_step_contracts(offset, 0, left);
        let next = spring_next(offset, 0, left);
        assert(0 < next < offset);
        assert(s == (next, Some(NavAction::Navigating), true));
        assert(spring_steps(offset, 0, left) == 1 + spring_steps(next, 0, left));
        lemma_navigating_round_trip(routes_len, delta, width, next);
    }
}

} // verus!
