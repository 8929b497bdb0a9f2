//! The drag interpreter: classifies raw pointer motion into directional
//! intents, applies the activation deadzone, owns the transient per-gesture
//! record, and arbitrates which surface may claim, continue, steal or release
//! an in-progress gesture.
//!
//! The interpreter itself is pure: the host samples the pointer and the
//! global gesture claim into a [`DragInput`], and applies the resulting
//! [`DragEffects`] back to its input system afterwards.

use vstd::prelude::*;

verus! {

use crate::geom::{Pos, Rect};

/// A set of accepted drag directions; a classified motion is a value with
/// exactly one flag set.
#[derive(Clone, Copy, Debug, PartialEq, Eq, Structural)]
pub struct DragDirection {
    pub left_to_right: bool,
    pub right_to_left: bool,
    pub vertical: bool,
}

impl DragDirection {
    /// Whether every direction in `other` is accepted by `self`.
    pub open spec fn spec_contains(&self, other: DragDirection) -> bool {
        &&& other.left_to_right ==> self.left_to_right
        &&& other.right_to_left ==> self.right_to_left
        &&& other.vertical ==> self.vertical
    }

    pub fn left_to_right() -> (d: DragDirection)
        ensures
            d.left_to_right && !d.right_to_left && !d.vertical,
    {
        DragDirection { left_to_right: true, right_to_left: false, vertical: false }
    }

    pub fn right_to_left() -> (d: DragDirection)
        ensures
            !d.left_to_right && d.right_to_left && !d.vertical,
    {
        DragDirection { left_to_right: false, right_to_left: true, vertical: false }
    }

    pub fn vertical() -> (d: DragDirection)
        ensures
            !d.left_to_right && !d.right_to_left && d.vertical,
    {
        DragDirection { left_to_right: false, right_to_left: false, vertical: true }
    }

    pub fn all() -> (d: DragDirection)
        ensures
            d.left_to_right && d.right_to_left && d.vertical,
    {
        DragDirection { left_to_right: true, right_to_left: true, vertical: true }
    }

    pub fn contains(&self, other: &DragDirection) -> (b: bool)
        ensures
            b == self.spec_contains(*other),
    {
        (!other.left_to_right || self.left_to_right) && (!other.right_to_left
            || self.right_to_left) && (!other.vertical || self.vertical)
    }
}

/// How the vertical-vs-horizontal decision is weighted when classifying a
/// motion: evenly, or with vertical winning whenever `n` times the vertical
/// travel exceeds the horizontal travel.
#[derive(Clone, Copy, Debug, PartialEq, Eq, Structural)]
pub enum DragAngle {
    Balanced,
    VerticalNTimesEasier(u8),
}

/// The per-frame outcome the interpreter reports to the state machine.
#[derive(Clone, Copy, Debug, PartialEq, Eq, Structural)]
pub enum DragAction {
    /// A gesture this surface owns is in progress.
    Dragging,
    /// The gesture was released; `threshold_met` says whether the travel was
    /// far enough to commit the return rather than snap back.
    DragReleased { threshold_met: bool },
    /// The gesture belongs to an unrelated surface, or was released in a
    /// direction this surface does not accept.
    DragUnrelated,
}

/// The transient record of one gesture: where the press began, and the
/// direction most recently detected for it.
#[derive(Clone, Copy, Debug, PartialEq, Eq, Structural)]
pub struct DragState {
    pub start_pos: Pos,
    pub cur_direction: DragDirection,
}

/// Pixels of motion, on at least one axis, before a gesture direction is
/// classified at all; smaller motion is jitter and stays inconclusive.
pub const DRAG_DEADZONE: i64 = 8;

/// Classify the motion from `start` to `cur` into a single direction, or
/// `None` when the motion is still within the deadzone on both axes.
pub open spec fn spec_cur_direction(start: Pos, cur: Pos, angle: DragAngle) -> Option<
    DragDirection,
> {
    let dx = start.x - cur.x;
    let dy = start.y - cur.y;
    let adx = if dx < 0 {
        -dx
    } else {
        dx
    };
    let ady = if dy < 0 {
        -dy
    } else {
        dy
    };
    if adx < DRAG_DEADZONE && ady < DRAG_DEADZONE {
        None
    } else {
        let is_vertical = match angle {
            DragAngle::Balanced => ady > adx,
            DragAngle::VerticalNTimesEasier(n) => ady * n > adx,
        };
        if is_vertical {
            Some(DragDirection { left_to_right: false, right_to_left: false, vertical: true })
        } else if dx >= 0 {
            Some(DragDirection { left_to_right: false, right_to_left: true, vertical: false })
        } else {
            Some(DragDirection { left_to_right: true, right_to_left: false, vertical: false })
        }
    }
}

pub fn cur_direction(start: &Pos, cur: &Pos, angle: DragAngle) -> (r: Option<DragDirection>)
    requires
        start.spec_in_range(),
        cur.spec_in_range(),
    ensures
        r == spec_cur_direction(*start, *cur, angle),
{
    let dx = start.x - cur.x;
    let dy = start.y - cur.y;
    let adx = if dx < 0 {
        -dx
    } else {
        dx
    };
    let ady = if dy < 0 {
        -dy
    } else {
        dy
    };
    if adx < DRAG_DEADZONE && ady < DRAG_DEADZONE {
        return None;
    }
    let is_vertical = match angle {
        DragAngle::Balanced => ady > adx,
        DragAngle::VerticalNTimesEasier(n) => {
            proof {
                assert(0 <= ady * (n as int) <= 0x2000_0000 * 255) by (nonlinear_arith)
                    requires
                        0 <= ady <= 0x2000_0000,
                        0 <= (n as int) <= 255,
                ;
            }
            ady * (n as i64) > adx
        },
    };
    if is_vertical {
        Some(DragDirection::vertical())
    } else if dx >= 0 {
        Some(DragDirection::right_to_left())
    } else {
        Some(DragDirection::left_to_right())
    }
}

/// The signed pointer delta along the axis a direction set moves on:
/// horizontal directions follow the x delta, a purely vertical set the y
/// delta, an empty set nothing.
pub open spec fn spec_drag_delta(delta: Pos, direction: DragDirection) -> int {
    if direction.left_to_right || direction.right_to_left {
        delta.x as int
    } else if direction.vertical {
        delta.y as int
    } else {
        0
    }
}

pub fn drag_delta(delta: &Pos, direction: &DragDirection) -> (d: i64)
    ensures
        d == spec_drag_delta(*delta, *direction),
{
    if direction.left_to_right || direction.right_to_left {
        delta.x
    } else if direction.vertical {
        delta.y
    } else {
        0
    }
}

/// One surface's drag configuration for one frame.
#[derive(Clone, Copy, Debug, PartialEq, Eq, Structural)]
pub struct Drag {
    /// The identifier this surface claims gestures under.
    pub id: u64,
    /// The region a gesture must begin in to belong to this surface.
    pub content_rect: Rect,
    /// The directions this surface accepts.
    pub direction: DragDirection,
    /// How far the offset currently is from its rest value.
    pub offset_from_rest: i64,
    /// The drag meets the release threshold when `offset_from_rest` is at or
    /// above this value when the gesture is released.
    pub threshold: i64,
    pub angle: DragAngle,
}

/// The pointer and claim state the host samples for one frame.
#[derive(Clone, Copy, Debug, PartialEq, Eq, Structural)]
pub struct DragInput {
    /// The surface currently owning the global gesture claim, if any.
    pub dragged_id: Option<u64>,
    /// Where the current press began.
    pub press_origin: Option<Pos>,
    /// The most recent pointer position.
    pub latest_pos: Option<Pos>,
    /// Whether the primary button is down.
    pub primary_down: bool,
    /// Whether the input system considers the pointer decidedly dragging
    /// (rather than clicking).
    pub decidedly_dragging: bool,
    /// The surface whose gesture the input system reports as stopped this
    /// frame, if any.
    pub drag_stopped_id: Option<u64>,
    /// The stored per-gesture record, if a gesture is in progress.
    pub stored_state: Option<DragState>,
}

impl DragInput {
    pub open spec fn spec_in_range(&self) -> bool {
        &&& (self.press_origin matches Some(o) ==> o.spec_in_range())
        &&& (self.latest_pos matches Some(p) ==> p.spec_in_range())
    }
}

/// What the host must apply back to its input system after one frame of drag
/// interpretation, besides the reported action.
#[derive(Clone, Copy, Debug, PartialEq, Eq, Structural)]
pub struct DragEffects {
    /// The outcome the state machine folds in this frame.
    pub action: Option<DragAction>,
    /// Set the global gesture claim to this surface.
    pub claim: Option<u64>,
    /// Release the global gesture claim (the pointer went up).
    pub stop_dragging: bool,
    /// Write the per-gesture record.
    pub store_state: Option<DragState>,
    /// Remove the per-gesture record (applied after any write).
    pub remove_state: bool,
}

impl Drag {
    pub fn new(
        id: u64,
        direction: DragDirection,
        content_rect: Rect,
        offset_from_rest: i64,
        threshold: i64,
        angle: DragAngle,
    ) -> (d: Drag)
        ensures
            d.id == id,
            d.direction == direction,
            d.content_rect == content_rect,
            d.offset_from_rest == offset_from_rest,
            d.threshold == threshold,
            d.angle == angle,
    {
        Drag { id, content_rect, direction, offset_from_rest, threshold, angle }
    }

    /// A fresh gesture may begin here: nobody owns a gesture yet, a decided
    /// press with the primary button down is in progress, and it began inside
    /// this surface's content rectangle.
    pub open spec fn spec_claims_fresh(&self, input: DragInput) -> bool {
        &&& input.dragged_id is None
        &&& input.decidedly_dragging
        &&& input.primary_down
        &&& (input.press_origin matches Some(o) && self.content_rect.spec_contains(o))
    }

    /// The gesture owner as this surface sees it, after a fresh claim.
    pub open spec fn spec_owner(&self, input: DragInput) -> Option<u64> {
        if self.spec_claims_fresh(input) {
            Some(self.id)
        } else {
            input.dragged_id
        }
    }

    /// This frame's motion, classified: the gesture record to store when the
    /// press began inside our rectangle and the motion classifies into a
    /// direction we accept; `None` otherwise.
    pub open spec fn spec_motion(&self, input: DragInput) -> Option<DragState> {
        match (input.press_origin, input.latest_pos) {
            (Some(origin), Some(latest)) => {
                if self.content_rect.spec_contains(origin) {
                    match spec_cur_direction(origin, latest, self.angle) {
                        Some(d) => if self.direction.spec_contains(d) {
                            Some(DragState { start_pos: origin, cur_direction: d })
                        } else {
                            None
                        },
                        None => None,
                    }
                } else {
                    None
                }
            },
            _ => None,
        }
    }

    /// Whether this surface continues the gesture this frame: it owns the
    /// claim or is eligible to take it over, and the motion classifies.
    pub open spec fn spec_engaged(&self, input: DragInput, can_take: Seq<u64>) -> bool {
        match self.spec_owner(input) {
            Some(d) => (can_take.contains(d) || d == self.id) && self.spec_motion(input) is Some,
            None => false,
        }
    }

    /// Whether this surface steals the claim from an eligible owner.
    pub open spec fn spec_steals(&self, input: DragInput, can_take: Seq<u64>) -> bool {
        match self.spec_owner(input) {
            Some(d) => can_take.contains(d) && d != self.id && self.spec_motion(input) is Some,
            None => false,
        }
    }

    /// Whether the gesture belongs to an unrelated surface while this
    /// surface's offset is away from rest.
    pub open spec fn spec_unrelated(&self, input: DragInput, can_take: Seq<u64>) -> bool {
        match self.spec_owner(input) {
            Some(d) => !(can_take.contains(d) || d == self.id) && self.offset_from_rest > 0,
            None => false,
        }
    }

    /// Whether this surface releases the claim this frame: it owns the claim
    /// after any fresh claim or steal, and the primary button is up.
    pub open spec fn spec_stops(&self, input: DragInput, can_take: Seq<u64>) -> bool {
        (self.spec_claims_fresh(input) || self.spec_steals(input, can_take) || input.dragged_id
            == Some(self.id)) && !input.primary_down
    }

    /// Whether a gesture of this surface ended this frame, by our own stop or
    /// as reported by the input system.
    pub open spec fn spec_released(&self, input: DragInput, can_take: Seq<u64>) -> bool {
        self.spec_stops(input, can_take) || input.drag_stopped_id == Some(self.id)
    }

    /// The outcome when a gesture with record `st` is released over this
    /// surface: committed or snapped back by the threshold when it pertains
    /// to us, unrelated otherwise.
    pub open spec fn spec_release_action(&self, st: DragState) -> DragAction {
        if self.content_rect.spec_contains(st.start_pos) && self.direction.spec_contains(
            st.cur_direction,
        ) {
            DragAction::DragReleased { threshold_met: self.offset_from_rest >= self.threshold }
        } else {
            DragAction::DragUnrelated
        }
    }

    /// The whole frame of gesture interpretation, as a value.
    pub open spec fn spec_handle(&self, input: DragInput, can_take: Seq<u64>) -> DragEffects {
        let engaged = self.spec_engaged(input, can_take);
        let store = if engaged {
            self.spec_motion(input)
        } else {
            None
        };
        let act = if engaged {
            Some(DragAction::Dragging)
        } else if self.spec_unrelated(input, can_take) {
            Some(DragAction::DragUnrelated)
        } else {
            None
        };
        let released = self.spec_released(input, can_take);
        let stored_eff = if store is Some {
            store
        } else {
            input.stored_state
        };
        let action = if released {
            match stored_eff {
                Some(st) => Some(self.spec_release_action(st)),
                None => act,
            }
        } else {
            act
        };
        DragEffects {
            action,
            claim: if self.spec_claims_fresh(input) || self.spec_steals(input, can_take) {
                Some(self.id)
            } else {
                None
            },
            stop_dragging: self.spec_stops(input, can_take),
            store_state: store,
            remove_state: released,
        }
    }

    fn motion(&self, input: &DragInput) -> (m: Option<DragState>)
        requires
            input.spec_in_range(),
        ensures
            m == self.spec_motion(*input),
    {
        match (input.press_origin, input.latest_pos) {
            (Some(origin), Some(latest)) => {
                if self.content_rect.contains(&origin) {
                    match cur_direction(&origin, &latest, self.angle) {
                        Some(d) => if self.direction.contains(&d) {
                            Some(DragState { start_pos: origin, cur_direction: d })
                        } else {
                            None
                        },
                        None => None,
                    }
                } else {
                    None
                }
            },
            _ => None,
        }
    }

    /// Interpret one frame of pointer input for this surface. `can_take_from`
    /// is the set of surfaces whose in-progress gesture this surface may take
    /// over (so a previous view can continue a drag that began over it before
    /// a foreground view existed).
    pub fn handle(&self, input: &DragInput, can_take_from: &Vec<u64>) -> (eff: DragEffects)
        requires
            input.spec_in_range(),
        ensures
            eff == self.spec_handle(*input, can_take_from@),
    {
        let fresh = input.dragged_id.is_none() && input.decidedly_dragging && input.primary_down
            && match input.press_origin {
            Some(o) => self.content_rect.contains(&o),
            None => false,
        };
        let owner: Option<u64> = if fresh {
            Some(self.id)
        } else {
            input.dragged_id
        };
        let motion = self.motion(input);
        let mut action: Option<DragAction> = None;
        let mut store: Option<DragState> = None;
        let mut steals = false;
        if let Some(did) = owner {
            let can_take_it = contains_id(can_take_from, did);
            if can_take_it || did == self.id {
                if let Some(st) = motion {
                    action = Some(DragAction::Dragging);
                    store = Some(st);
                    if can_take_it && did != self.id {
                        steals = true;
                    }
                }
            } else if self.offset_from_rest > 0 {
                action = Some(DragAction::DragUnrelated);
            }
        }
        let owns_now = fresh || steals || match input.dragged_id {
            Some(d) => d == self.id,
            None => false,
        };
        let stops = owns_now && !input.primary_down;
        let released = stops || match input.drag_stopped_id {
            Some(s) => s == self.id,
            None => false,
        };
        if released {
            let stored_eff = if store.is_some() {
                store
            } else {
                input.stored_state
            };
            if let Some(st) = stored_eff {
                action = Some(self.release_action(&st));
            }
        }
        DragEffects {
            action,
            claim: if fresh || steals {
                Some(self.id)
            } else {
                None
            },
            stop_dragging: stops,
            store_state: store,
            remove_state: released,
        }
    }

    fn release_action(&self, st: &DragState) -> (a: DragAction)
        ensures
            a == self.spec_release_action(*st),
    {
        if self.content_rect.contains(&st.start_pos) && self.direction.contains(
            &st.cur_direction,
        ) {
            DragAction::DragReleased { threshold_met: self.offset_from_rest >= self.threshold }
        } else {
            DragAction::DragUnrelated
        }
    }
}

/// Whether `ids` holds `id`.
fn contains_id(ids: &Vec<u64>, id: u64) -> (b: bool)
    ensures
        b == ids@.contains(id),
{
    let mut i: usize = 0;
    while i < ids.len()
        invariant
            i <= ids@.len(),
            forall|j: int| 0 <= j < i ==> ids@[j] != id,
        decreases ids@.len() - i,
    {
        if ids[i] == id {
            assert(ids@[i as int] == id);
            return true;
        }
        i = i + 1;
    }
    false
}

} // verus!
