use egui_nav::drag::cur_direction;
use egui_nav::{
    Drag, DragAction, DragAngle, DragDirection, DragInput, DragState, Pos, Rect,
};

fn rect(x0: i64, y0: i64, x1: i64, y1: i64) -> Rect {
    Rect { min: Pos { x: x0, y: y0 }, max: Pos { x: x1, y: y1 } }
}

fn quiet_input() -> DragInput {
    DragInput {
        dragged_id: None,
        press_origin: None,
        latest_pos: None,
        primary_down: false,
        decidedly_dragging: false,
        drag_stopped_id: None,
        stored_state: None,
    }
}

fn nav_drag(id: u64, offset_from_rest: i64) -> Drag {
    Drag::new(
        id,
        DragDirection::left_to_right(),
        rect(0, 0, 300, 500),
        offset_from_rest,
        75,
        DragAngle::Balanced,
    )
}

#[test]
fn classification_ignores_the_deadzone() {
    let origin = Pos { x: 100, y: 100 };
    let near = Pos { x: 105, y: 107 };
    assert_eq!(cur_direction(&origin, &near, DragAngle::Balanced), None);
}

#[test]
fn classification_splits_horizontal_by_sign() {
    let origin = Pos { x: 100, y: 100 };
    let rightward = Pos { x: 150, y: 103 };
    let leftward = Pos { x: 50, y: 103 };
    assert_eq!(
        cur_direction(&origin, &rightward, DragAngle::Balanced),
        Some(DragDirection::left_to_right())
    );
    assert_eq!(
        cur_direction(&origin, &leftward, DragAngle::Balanced),
        Some(DragDirection::right_to_left())
    );
}

#[test]
fn classification_balanced_lets_the_larger_axis_win() {
    let origin = Pos { x: 100, y: 100 };
    let mostly_down = Pos { x: 110, y: 140 };
    assert_eq!(
        cur_direction(&origin, &mostly_down, DragAngle::Balanced),
        Some(DragDirection::vertical())
    );
}

#[test]
fn classification_biased_makes_vertical_easier() {
    let origin = Pos { x: 100, y: 100 };
    // 30 px horizontal vs 10 px vertical: balanced says horizontal,
    // a five-times bias says vertical
    let diagonal = Pos { x: 70, y: 110 };
    assert_eq!(
        cur_direction(&origin, &diagonal, DragAngle::Balanced),
        Some(DragDirection::right_to_left())
    );
    assert_eq!(
        cur_direction(&origin, &diagonal, DragAngle::VerticalNTimesEasier(5)),
        Some(DragDirection::vertical())
    );
}

#[test]
fn drag_delta_follows_the_axis() {
    let delta = Pos { x: 12, y: -7 };
    assert_eq!(egui_nav::drag::drag_delta(&delta, &DragDirection::left_to_right()), 12);
    assert_eq!(egui_nav::drag::drag_delta(&delta, &DragDirection::right_to_left()), 12);
    assert_eq!(egui_nav::drag::drag_delta(&delta, &DragDirection::vertical()), -7);
}

#[test]
fn direction_set_containment() {
    assert!(DragDirection::all().contains(&DragDirection::vertical()));
    assert!(DragDirection::left_to_right().contains(&DragDirection::left_to_right()));
    assert!(!DragDirection::left_to_right().contains(&DragDirection::right_to_left()));
    assert!(!DragDirection::left_to_right().contains(&DragDirection::vertical()));
}

#[test]
fn a_fresh_press_inside_the_surface_claims_the_gesture() {
    let drag = nav_drag(9, 0);
    let input = DragInput {
        dragged_id: None,
        press_origin: Some(Pos { x: 10, y: 10 }),
        latest_pos: Some(Pos { x: 60, y: 12 }),
        primary_down: true,
        decidedly_dragging: true,
        ..quiet_input()
    };
    let eff = drag.handle(&input, &Vec::new());
    assert_eq!(eff.claim, Some(9), "the surface claims the unowned gesture");
    assert_eq!(eff.action, Some(DragAction::Dragging));
    assert_eq!(
        eff.store_state,
        Some(DragState { start_pos: Pos { x: 10, y: 10 }, cur_direction: DragDirection::left_to_right() })
    );
    assert!(!eff.stop_dragging);
    assert!(!eff.remove_state);
}

#[test]
fn a_press_outside_the_surface_claims_nothing() {
    let drag = nav_drag(9, 0);
    let input = DragInput {
        dragged_id: None,
        press_origin: Some(Pos { x: 400, y: 10 }),
        latest_pos: Some(Pos { x: 450, y: 12 }),
        primary_down: true,
        decidedly_dragging: true,
        ..quiet_input()
    };
    let eff = drag.handle(&input, &Vec::new());
    assert_eq!(eff.claim, None);
    assert_eq!(eff.action, None);
}

#[test]
fn scenario_nested_surface_takes_over_an_eligible_claim() {
    // a drag began over the outer surface (owner 7); the inner surface with
    // two routes is eligible to take it over, so it claims the gesture
    // rather than leaving it unowned
    let inner = nav_drag(9, 0);
    let input = DragInput {
        dragged_id: Some(7),
        press_origin: Some(Pos { x: 10, y: 10 }),
        latest_pos: Some(Pos { x: 60, y: 12 }),
        primary_down: true,
        decidedly_dragging: true,
        ..quiet_input()
    };
    let eff = inner.handle(&input, &vec![7u64]);
    assert_eq!(eff.claim, Some(9), "the inner surface steals the claim");
    assert_eq!(eff.action, Some(DragAction::Dragging));
}

#[test]
fn an_ineligible_owner_leaves_the_claim_alone() {
    let inner = nav_drag(9, 0);
    let input = DragInput {
        dragged_id: Some(7),
        press_origin: Some(Pos { x: 10, y: 10 }),
        latest_pos: Some(Pos { x: 60, y: 12 }),
        primary_down: true,
        decidedly_dragging: true,
        ..quiet_input()
    };
    let eff = inner.handle(&input, &Vec::new());
    assert_eq!(eff.claim, None);
    assert_eq!(eff.action, None, "offset at rest: nothing to reset");
}

#[test]
fn an_unrelated_gesture_resets_a_displaced_surface() {
    let drag = nav_drag(9, 40);
    let input = DragInput { dragged_id: Some(7), ..quiet_input() };
    let eff = drag.handle(&input, &Vec::new());
    assert_eq!(eff.action, Some(DragAction::DragUnrelated));
}

#[test]
fn release_beyond_the_threshold_commits() {
    let drag = nav_drag(9, 120);
    let input = DragInput {
        drag_stopped_id: Some(9),
        stored_state: Some(DragState {
            start_pos: Pos { x: 10, y: 10 },
            cur_direction: DragDirection::left_to_right(),
        }),
        ..quiet_input()
    };
    let eff = drag.handle(&input, &Vec::new());
    assert_eq!(eff.action, Some(DragAction::DragReleased { threshold_met: true }));
    assert!(eff.remove_state, "the gesture record is dropped on release");
}

#[test]
fn release_short_of_the_threshold_snaps_back() {
    let drag = nav_drag(9, 20);
    let input = DragInput {
        drag_stopped_id: Some(9),
        stored_state: Some(DragState {
            start_pos: Pos { x: 10, y: 10 },
            cur_direction: DragDirection::left_to_right(),
        }),
        ..quiet_input()
    };
    let eff = drag.handle(&input, &Vec::new());
    assert_eq!(eff.action, Some(DragAction::DragReleased { threshold_met: false }));
}

#[test]
fn release_in_a_foreign_direction_is_unrelated() {
    let drag = nav_drag(9, 120);
    let input = DragInput {
        drag_stopped_id: Some(9),
        stored_state: Some(DragState {
            start_pos: Pos { x: 10, y: 10 },
            cur_direction: DragDirection::vertical(),
        }),
        ..quiet_input()
    };
    let eff = drag.handle(&input, &Vec::new());
    assert_eq!(eff.action, Some(DragAction::DragUnrelated));
}

#[test]
fn lifting_the_button_stops_our_own_gesture() {
    let drag = nav_drag(9, 50);
    let input = DragInput {
        dragged_id: Some(9),
        press_origin: Some(Pos { x: 10, y: 10 }),
        latest_pos: Some(Pos { x: 60, y: 12 }),
        primary_down: false,
        decidedly_dragging: true,
        stored_state: Some(DragState {
            start_pos: Pos { x: 10, y: 10 },
            cur_direction: DragDirection::left_to_right(),
        }),
        ..quiet_input()
    };
    let eff = drag.handle(&input, &Vec::new());
    assert!(eff.stop_dragging);
    assert!(eff.remove_state);
    assert_eq!(eff.action, Some(DragAction::DragReleased { threshold_met: false }));
}
