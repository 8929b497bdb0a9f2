use egui_nav::drawer::{drawer_fade_alpha, DrawerFrameInput};
use egui_nav::nav::nav_fade_alpha;
use egui_nav::popup_sheet::{popup_drag_threshold, popup_fade_alpha, PopupFrameInput};
use egui_nav::{
    DragAction, DragAngle, NavAction, NavDrawer, Percent, Pos, PopupSheet, Rect, ReturnType,
    State,
};

fn avail() -> Rect {
    Rect { min: Pos { x: 0, y: 0 }, max: Pos { x: 400, y: 600 } }
}

fn sheet_input(drag: Option<DragAction>, drag_delta: i64, bg_clicked: bool) -> PopupFrameInput {
    PopupFrameInput { drag, drag_delta, avail: avail(), bg_clicked }
}

#[test]
fn percent_rejects_values_over_one_hundred() {
    assert!(Percent::new(101).is_none());
    assert!(Percent::new(255).is_none());
    assert!(Percent::new(100).is_some());
    assert!(Percent::new(0).is_some());
}

#[test]
fn percent_of_scales_down() {
    let half = Percent::new(50).unwrap();
    assert_eq!(half.of(300), 150);
    let quarter = Percent::new(25).unwrap();
    assert_eq!(quarter.of(300), 75);
    assert_eq!(quarter.of(0), 0);
    // floor division
    assert_eq!(Percent::new(33).unwrap().of(10), 3);
}

#[test]
fn sheet_rests_at_the_configured_split() {
    let (bg, fg) = (1u32, 2u32);
    let sheet = PopupSheet::new(&bg, &fg);
    let s = sheet.initial_state(&avail());
    assert_eq!(s.offset, 300, "half of the 600-high surface by default");
    assert_eq!(s.action, None);

    let lower = PopupSheet::new(&bg, &fg)
        .with_split_percent_from_top(Percent::new(75).unwrap());
    assert_eq!(lower.initial_state(&avail()).offset, 450);
}

#[test]
fn sheet_navigating_slides_up_from_the_bottom() {
    let (bg, fg) = (1u32, 2u32);
    let sheet = PopupSheet::new(&bg, &fg).navigating(true);
    let mut state = sheet.initial_state(&avail());
    state.offset = 600;
    state.action = Some(NavAction::Navigating);
    let mut frames = 0u32;
    while state.action == Some(NavAction::Navigating) {
        sheet.step_frame(&mut state, &sheet_input(None, 0, false));
        frames += 1;
        assert!(frames < 1000);
    }
    assert_eq!(state.action, Some(NavAction::Navigated));
    assert_eq!(state.offset, 300, "the sheet settles exactly at its rest split");
}

#[test]
fn sheet_navigate_rearm_starts_at_the_bottom() {
    let (bg, fg) = (1u32, 2u32);
    let sheet = PopupSheet::new(&bg, &fg).navigating(true);
    let mut state = sheet.initial_state(&avail());
    sheet.step_frame(&mut state, &sheet_input(None, 0, false));
    assert_eq!(state.action, Some(NavAction::Navigating));
    assert!(state.offset > 300 && state.offset < 600, "armed at 600 and already moving");
}

#[test]
fn sheet_background_click_returns() {
    let (bg, fg) = (1u32, 2u32);
    let sheet = PopupSheet::new(&bg, &fg);
    let mut state = sheet.initial_state(&avail());
    sheet.step_frame(&mut state, &sheet_input(None, 0, true));
    assert_eq!(state.action, Some(NavAction::Returning(ReturnType::Click)));
}

#[test]
fn sheet_committed_drag_slides_out() {
    let (bg, fg) = (1u32, 2u32);
    let sheet = PopupSheet::new(&bg, &fg);
    let mut state = sheet.initial_state(&avail());
    // drag the sheet 100 px down: past the (600-300)/4 = 75 threshold
    sheet.step_frame(&mut state, &sheet_input(Some(DragAction::Dragging), 100, false));
    assert_eq!(state.offset, 400);
    assert_eq!(popup_drag_threshold(300, 600), 75);
    sheet.step_frame(
        &mut state,
        &sheet_input(Some(DragAction::DragReleased { threshold_met: true }), 0, false),
    );
    assert_eq!(state.action, Some(NavAction::Returning(ReturnType::Drag)));
    let mut frames = 0u32;
    loop {
        sheet.step_frame(&mut state, &sheet_input(None, 0, false));
        frames += 1;
        assert!(frames < 1000);
        if state.action == Some(NavAction::Returned(ReturnType::Drag)) {
            break;
        }
    }
    assert_eq!(state.offset, 600, "fully displaced at the bottom");
}

#[test]
fn sheet_drag_is_clamped_to_its_travel() {
    let (bg, fg) = (1u32, 2u32);
    let sheet = PopupSheet::new(&bg, &fg);
    let mut state = sheet.initial_state(&avail());
    sheet.step_frame(&mut state, &sheet_input(Some(DragAction::Dragging), 10_000, false));
    assert_eq!(state.offset, 600, "never below the bottom");
    sheet.step_frame(&mut state, &sheet_input(Some(DragAction::Dragging), -10_000, false));
    assert_eq!(state.offset, 300, "never above its rest split");
}

#[test]
fn fade_alphas_interpolate() {
    // the stack navigator fades out as the offset approaches the width
    assert_eq!(nav_fade_alpha(0, 300), 50);
    assert_eq!(nav_fade_alpha(150, 300), 25);
    assert_eq!(nav_fade_alpha(300, 300), 0);
    assert_eq!(nav_fade_alpha(0, 0), 0);
    // the sheet dims fully as its top approaches the top
    assert_eq!(popup_fade_alpha(600, 600), 0);
    assert_eq!(popup_fade_alpha(300, 600), 127);
    assert_eq!(popup_fade_alpha(0, 600), 255);
    // the drawer dims nothing while closed, up to 200 when open
    assert_eq!(drawer_fade_alpha(0, 200), None);
    assert_eq!(drawer_fade_alpha(100, 200), Some(100));
    assert_eq!(drawer_fade_alpha(200, 200), Some(200));
}

#[test]
fn drawer_opens_on_a_committed_background_drag() {
    let (bg, inner) = (1u32, 2u32);
    let drawer = NavDrawer::new(&bg, &inner).opened_offset(200);
    let mut state = State::default();
    drawer.step_frame(
        &mut state,
        &DrawerFrameInput {
            drag: Some(DragAction::DragReleased { threshold_met: true }),
            drag_delta: 0,
            bg_clicked: false,
        },
    );
    assert_eq!(state.action, Some(NavAction::Navigating));
    let mut frames = 0u32;
    while state.action == Some(NavAction::Navigating) {
        drawer.step_frame(
            &mut state,
            &DrawerFrameInput { drag: None, drag_delta: 0, bg_clicked: false },
        );
        frames += 1;
        assert!(frames < 1000);
    }
    assert_eq!(state.action, Some(NavAction::Navigated));
    assert_eq!(state.offset, 200, "fully open, exactly at the end offset");
}

#[test]
fn drawer_short_background_drag_springs_shut() {
    let (bg, inner) = (1u32, 2u32);
    let drawer = NavDrawer::new(&bg, &inner).opened_offset(200);
    let mut state = State { offset: 30, action: None, popped_min_rect: None };
    drawer.step_frame(
        &mut state,
        &DrawerFrameInput {
            drag: Some(DragAction::DragReleased { threshold_met: false }),
            drag_delta: 0,
            bg_clicked: false,
        },
    );
    assert_eq!(state.action, Some(NavAction::Returning(ReturnType::Drag)));
    let mut frames = 0u32;
    while matches!(state.action, Some(NavAction::Returning(_))) {
        drawer.step_frame(
            &mut state,
            &DrawerFrameInput { drag: None, drag_delta: 0, bg_clicked: false },
        );
        frames += 1;
        assert!(frames < 1000);
    }
    assert_eq!(state.action, Some(NavAction::Returned(ReturnType::Drag)));
    assert_eq!(state.offset, 0, "closed exactly");
}

#[test]
fn focused_drawer_release_closes_or_snaps_back() {
    let (bg, inner) = (1u32, 2u32);
    let drawer = NavDrawer::new(&bg, &inner).opened_offset(200).drawer_focused(true);
    let mut state = State { offset: 150, action: None, popped_min_rect: None };
    drawer.step_frame(
        &mut state,
        &DrawerFrameInput {
            drag: Some(DragAction::DragReleased { threshold_met: true }),
            drag_delta: 0,
            bg_clicked: false,
        },
    );
    assert_eq!(state.action, Some(NavAction::Returning(ReturnType::Drag)), "met: close it");

    let mut state = State { offset: 150, action: None, popped_min_rect: None };
    drawer.step_frame(
        &mut state,
        &DrawerFrameInput {
            drag: Some(DragAction::DragReleased { threshold_met: false }),
            drag_delta: 0,
            bg_clicked: false,
        },
    );
    assert_eq!(state.action, Some(NavAction::Resetting), "not met: snap back open");
}

#[test]
fn drawer_background_click_closes_a_visible_drawer() {
    let (bg, inner) = (1u32, 2u32);
    let drawer = NavDrawer::new(&bg, &inner).opened_offset(200);
    let mut state = State { offset: 120, action: None, popped_min_rect: None };
    drawer.step_frame(
        &mut state,
        &DrawerFrameInput { drag: None, drag_delta: 0, bg_clicked: true },
    );
    assert_eq!(state.action, Some(NavAction::Returning(ReturnType::Click)));

    // a closed drawer ignores clicks on the content
    let mut state = State::default();
    drawer.step_frame(
        &mut state,
        &DrawerFrameInput { drag: None, drag_delta: 0, bg_clicked: true },
    );
    assert_eq!(state.action, None);
}

#[test]
fn drawer_drag_configuration_follows_the_focus() {
    let (bg, inner) = (1u32, 2u32);
    let unfocused = NavDrawer::new(&bg, &inner).opened_offset(200);
    let focused = NavDrawer::new(&bg, &inner).opened_offset(200).drawer_focused(true);

    let d = unfocused.drag_directions();
    assert!(d.left_to_right && !d.right_to_left && !d.vertical);
    let d = focused.drag_directions();
    assert!(d.left_to_right && d.right_to_left && d.vertical);

    assert_eq!(unfocused.drag_angle(), DragAngle::VerticalNTimesEasier(5));
    assert_eq!(focused.drag_angle(), DragAngle::Balanced);

    let state = State { offset: 150, action: None, popped_min_rect: None };
    assert_eq!(unfocused.drag_offset_from_rest(&state), 150, "measured from the closed edge");
    assert_eq!(focused.drag_offset_from_rest(&state), 50, "measured from the open end");
}

#[test]
fn geometry_helpers() {
    let r = avail();
    assert!(r.contains(&Pos { x: 0, y: 0 }));
    assert!(r.contains(&Pos { x: 400, y: 600 }));
    assert!(!r.contains(&Pos { x: 401, y: 10 }));
    assert_eq!(r.width(), 400);
    assert_eq!(r.height(), 600);
    let (top, bottom) = r.split_top_bottom_at(250);
    assert_eq!(top.max, Pos { x: 400, y: 250 });
    assert_eq!(bottom.min, Pos { x: 0, y: 250 });
    let (left, right) = r.split_left_right_at(120);
    assert_eq!(left.max, Pos { x: 120, y: 600 });
    assert_eq!(right.min, Pos { x: 120, y: 0 });
}
