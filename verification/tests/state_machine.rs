use egui_nav::{NavAction, ReturnType, State};

fn idle_at(offset: i64) -> State {
    State { offset, action: None, popped_min_rect: None }
}

#[test]
fn default_state_is_idle_at_rest() {
    let s = State::default();
    assert_eq!(s.offset, 0);
    assert_eq!(s.action, None);
    assert_eq!(s.popped_min_rect, None);
    assert!(!s.is_transitioning());
}

#[test]
fn transitioning_actions() {
    assert!(NavAction::Dragging.is_transitioning());
    assert!(NavAction::Resetting.is_transitioning());
    assert!(NavAction::Navigating.is_transitioning());
    assert!(NavAction::Returning(ReturnType::Drag).is_transitioning());
    assert!(NavAction::Returning(ReturnType::Click).is_transitioning());
    assert!(!NavAction::Returned(ReturnType::Drag).is_transitioning());
    assert!(!NavAction::Navigated.is_transitioning());
}

#[test]
fn dragging_follows_the_delta_clamped_above() {
    let mut s = idle_at(290);
    s.action = Some(NavAction::Dragging);
    let repaint = NavAction::Dragging.handle(&mut s, 40, 0, 300);
    assert_eq!(s.offset, 300, "clamped to the fully-displaced bound");
    assert_eq!(s.action, Some(NavAction::Dragging));
    assert!(!repaint, "following a pointer needs no extra frame");
}

#[test]
fn dragging_follows_the_delta_clamped_below() {
    let mut s = idle_at(10);
    s.action = Some(NavAction::Dragging);
    NavAction::Dragging.handle(&mut s, -40, 0, 300);
    assert_eq!(s.offset, 0, "clamped to the rest bound");
}

#[test]
fn dragging_clamps_with_flipped_orientation() {
    // the drawer runs with rest above the navigated bound
    let mut s = idle_at(10);
    s.action = Some(NavAction::Dragging);
    NavAction::Dragging.handle(&mut s, -40, 200, 0);
    assert_eq!(s.offset, 0);
    NavAction::Dragging.handle(&mut s, 500, 200, 0);
    assert_eq!(s.offset, 200);
}

#[test]
fn returning_animates_and_snaps_exactly() {
    let mut s = idle_at(120);
    s.action = Some(NavAction::Returning(ReturnType::Drag));
    let mut frames = 0u32;
    loop {
        let repaint = NavAction::Returning(ReturnType::Drag).handle(&mut s, 0, 0, 300);
        frames += 1;
        assert!(frames < 1000);
        match s.action {
            Some(NavAction::Returning(_)) => {
                assert!(repaint, "an unfinished animation schedules a repaint");
                assert!(s.offset < 300);
            }
            Some(NavAction::Returned(cause)) => {
                assert_eq!(cause, ReturnType::Drag);
                assert_eq!(s.offset, 300, "snapped exactly onto the bound");
                assert!(!repaint);
                break;
            }
            other => panic!("unexpected action {other:?}"),
        }
    }
}

#[test]
fn resetting_animates_back_to_rest_and_clears() {
    let mut s = idle_at(20);
    s.action = Some(NavAction::Resetting);
    let mut frames = 0u32;
    while let Some(a) = s.action {
        a.handle(&mut s, 0, 0, 300);
        frames += 1;
        assert!(frames < 1000);
    }
    assert_eq!(s.offset, 0, "exactly at rest");
    assert_eq!(s.action, None);
}

#[test]
fn navigating_animates_to_rest_and_signals() {
    let mut s = idle_at(300);
    s.action = Some(NavAction::Navigating);
    let mut frames = 0u32;
    while s.action == Some(NavAction::Navigating) {
        NavAction::Navigating.handle(&mut s, 0, 0, 300);
        frames += 1;
        assert!(frames < 1000);
    }
    assert_eq!(s.action, Some(NavAction::Navigated));
    assert_eq!(s.offset, 0, "the last step snaps exactly to rest");
}

#[test]
fn signaling_states_clear_themselves() {
    let mut s = idle_at(0);
    s.action = Some(NavAction::Returned(ReturnType::Click));
    NavAction::Returned(ReturnType::Click).handle(&mut s, 0, 0, 300);
    assert_eq!(s.action, None);

    let mut s = idle_at(0);
    s.action = Some(NavAction::Navigated);
    NavAction::Navigated.handle(&mut s, 0, 0, 300);
    assert_eq!(s.action, None);
}
