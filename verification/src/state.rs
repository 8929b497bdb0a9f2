//! The per-surface transition state: the current offset, the active action,
//! and the transition function that folds one frame of input into a new
//! state. This is the heart of the navigation state machine.

use vstd::prelude::*;

verus! {

use crate::geom::{clamp_int, in_range, Rect};
use crate::spring::{spring_done, spring_next, spring_animate};

/// What caused a return to the previous view: a drag gesture or a
/// programmatic/click request. The host may want different follow-up
/// behavior for the two.
#[derive(Clone, Copy, Debug, Eq, PartialEq, Structural)]
pub enum ReturnType {
    Drag,
    Click,
}

/// The transition a surface is currently performing.
#[derive(Clone, Copy, Debug, Eq, PartialEq, Structural)]
pub enum NavAction {
    /// We're returning to the previous view
    Returning(ReturnType),
    /// We released the drag, but not far enough to actually return
    Resetting,
    /// We're dragging the view. We're not making a return decision yet
    Dragging,
    /// We've returned to the previous view. Pop your route!
    Returned(ReturnType),
    /// We're navigating to the next view.
    Navigating,
    /// We've finished navigating, clear your navigating flag!
    Navigated,
}

/// Whether an action animates or follows the pointer this frame, as opposed
/// to the one-frame signaling states.
pub open spec fn spec_is_transitioning(a: NavAction) -> bool {
    match a {
        NavAction::Returning(_) => true,
        NavAction::Resetting => true,
        NavAction::Dragging => true,
        NavAction::Returned(_) => false,
        NavAction::Navigated => false,
        NavAction::Navigating => true,
    }
}

/// The persisted per-surface record: animation offset, active action, and the
/// cached bounding rectangle of the background layer rendered last frame
/// (reused as a size estimate for the parallax shift).
#[derive(Clone, Copy, Debug, Eq, PartialEq, Structural)]
pub struct State {
    pub offset: i64,
    pub action: Option<NavAction>,
    pub popped_min_rect: Option<Rect>,
}

impl Default for State {
    fn default() -> (s: Self)
        ensures
            s.offset == 0,
            s.action is None,
            s.popped_min_rect is None,
    {
        State { offset: 0, action: None, popped_min_rect: None }
    }
}

impl State {
    pub open spec fn spec_is_transitioning(&self) -> bool {
        match self.action {
            Some(a) => spec_is_transitioning(a),
            None => false,
        }
    }

    pub fn is_transitioning(&self) -> (b: bool)
        ensures
            b == self.spec_is_transitioning(),
    {
        match self.action {
            Some(a) => a.is_transitioning(),
            None => false,
        }
    }
}

/// What one frame of an active action does to the surface: the new offset,
/// the new action, and whether another frame must be scheduled because an
/// animation is still running.
///
/// `navigated_offset` is the bound the view settles at after navigating
/// forward (the rest offset), `returned_offset` the bound it reaches when
/// fully returned (the fully-displaced offset); either may be the lower one
/// depending on the surface's axis and orientation.
pub open spec fn spec_handle(
    action: NavAction,
    offset: int,
    delta: int,
    navigated_offset: int,
    returned_offset: int,
) -> (int, Option<NavAction>, bool) {
    match action {
        NavAction::Dragging => {
            let lo = if navigated_offset <= returned_offset {
                navigated_offset
            } else {
                returned_offset
            };
            let hi = if navigated_offset <= returned_offset {
                returned_offset
            } else {
                navigated_offset
            };
            (clamp_int(offset + delta, lo, hi), Some(NavAction::Dragging), false)
        },
        NavAction::Returned(_) => (offset, None, false),
        NavAction::Navigated => (offset, None, false),
        NavAction::Navigating => {
            let left = offset > navigated_offset;
            if spring_done(offset, navigated_offset, left) {
                (navigated_offset, Some(NavAction::Navigated), false)
            } else {
                (spring_next(offset, navigated_offset, left), Some(NavAction::Navigating), true)
            }
        },
        NavAction::Returning(return_type) => {
            let left = offset > returned_offset;
            if spring_done(offset, returned_offset, left) {
                (returned_offset, Some(NavAction::Returned(return_type)), false)
            } else {
                (spring_next(offset, returned_offset, left), Some(NavAction::Returning(return_type)), true)
            }
        },
        NavAction::Resetting => {
            let left = offset > navigated_offset;
            if spring_done(offset, navigated_offset, left) {
                (navigated_offset, None, false)
            } else {
                (spring_next(offset, navigated_offset, left), Some(NavAction::Resetting), true)
            }
        },
    }
}

/// Law: one dragging frame puts the offset inside the closed interval
/// between the two bounds, whatever the delta, the starting offset, and the
/// orientation of the interval; following a pointer schedules no repaint.
pub proof fn lemma_dragging_clamped(
    offset: int,
    delta: int,
    navigated_offset: int,
    returned_offset: int,
)
    ensures
        ({
            let (o, a, rp) = spec_handle(
                NavAction::Dragging,
                offset,
                delta,
                navigated_offset,
                returned_offset,
            );
            let lo = if navigated_offset <= returned_offset {
                navigated_offset
            } else {
                returned_offset
            };
            let hi = if navigated_offset <= returned_offset {
                returned_offset
            } else {
                navigated_offset
            };
            lo <= o <= hi && a == Some(NavAction::Dragging) && !rp
        }),
{
}

impl NavAction {
    pub fn is_transitioning(&self) -> (b: bool)
        ensures
            b == spec_is_transitioning(*self),
    {
        match self {
            NavAction::Returning(_) => true,
            NavAction::Resetting => true,
            NavAction::Dragging => true,
            NavAction::Returned(_) => false,
            NavAction::Navigated => false,
            NavAction::Navigating => true,
        }
    }

    /// Run one frame of this action: while dragging, follow the pointer delta
    /// clamped between the two bounds; while animating, take one spring step
    /// and snap exactly onto the bound on completion; the one-frame signaling
    /// states clear themselves. Returns whether a repaint must be scheduled.
    pub fn handle(
        self,
        state: &mut State,
        delta: i64,
        navigated_offset: i64,
        returned_offset: i64,
    ) -> (repaint: bool)
        requires
            in_range(old(state).offset as int),
            in_range(delta as int),
            in_range(navigated_offset as int),
            in_range(returned_offset as int),
        ensures
            ({
                let (o, a, rp) = spec_handle(
                    self,
                    old(state).offset as int,
                    delta as int,
                    navigated_offset as int,
                    returned_offset as int,
                );
                final(state).offset == o && final(state).action == a && repaint == rp
            }),
            final(state).popped_min_rect == old(state).popped_min_rect,
            in_range(final(state).offset as int),
    {
        match self {
            NavAction::Dragging => {
                let lo = if navigated_offset <= returned_offset {
                    navigated_offset
                } else {
                    returned_offset
                };
                let hi = if navigated_offset <= returned_offset {
                    returned_offset
                } else {
                    navigated_offset
                };
                let moved = state.offset + delta;
                state.offset = if moved < lo {
                    lo
                } else if moved > hi {
                    hi
                } else {
                    moved
                };
                state.action = Some(NavAction::Dragging);
                false
            },
            NavAction::Returned(_) => {
                state.action = None;
                false
            },
            NavAction::Navigated => {
                state.action = None;
                false
            },
            NavAction::Navigating => {
                let left = state.offset > navigated_offset;
                if let Some(offset) = spring_animate(state.offset, navigated_offset, left) {
                    state.offset = offset;
                    state.action = Some(NavAction::Navigating);
                    true
                } else {
                    state.offset = navigated_offset;
                    state.action = Some(NavAction::Navigated);
                    false
                }
            },
            NavAction::Returning(return_type) => {
                // We're returning: move the current view off toward the
                // returned offset until the entire view is gone.
                let left = state.offset > returned_offset;
                if let Some(offset) = spring_animate(state.offset, returned_offset, left) {
                    state.offset = offset;
                    state.action = Some(NavAction::Returning(return_type));
                    true
                } else {
                    state.offset = returned_offset;
                    state.action = Some(NavAction::Returned(return_type));
                    false
                }
            },
            NavAction::Resetting => {
                // We're resetting: animate the offset back to the rest view.
                let left = state.offset > navigated_offset;
                if let Some(offset) = spring_animate(state.offset, navigated_offset, left) {
                    state.offset = offset;
                    state.action = Some(NavAction::Resetting);
                    true
                } else {
                    state.offset = navigated_offset;
                    state.action = None;
                    false
                }
            },
        }
    }
}

} // verus!
