use sixtyfps::frame::{corner_size, frame_paddings, Margins, RectEdges};
use sixtyfps::scrollbar::{
    choose_scroll_bar, released_value, scroll_bar_event, InputEventResult, MouseEventKind, ScrollAction,
    ScrollBarChoice, ScrollBarState, SC_SCROLL_BAR_ADD_LINE, SC_SCROLL_BAR_ADD_PAGE, SC_SCROLL_BAR_FIRST,
    SC_SCROLL_BAR_LAST, SC_SCROLL_BAR_SLIDER, SC_SCROLL_BAR_SUB_LINE, SC_SCROLL_BAR_SUB_PAGE,
};

const IDLE: ScrollBarState = ScrollBarState { active_controls: 0, pressed: 0 };

#[test]
fn default_result_is_ignored() {
    assert_eq!(InputEventResult::default(), InputEventResult::EventIgnored);
}

#[test]
fn routing() {
    assert_eq!(choose_scroll_bar(0, true, false), ScrollBarChoice::Vertical);
    assert_eq!(choose_scroll_bar(0, true, true), ScrollBarChoice::Vertical);
    assert_eq!(choose_scroll_bar(0, false, true), ScrollBarChoice::Horizontal);
    assert_eq!(choose_scroll_bar(0, false, false), ScrollBarChoice::Neither);
    // a bar that holds the mouse keeps it
    assert_eq!(choose_scroll_bar(2, false, true), ScrollBarChoice::Vertical);
    assert_eq!(choose_scroll_bar(1, true, false), ScrollBarChoice::Horizontal);
    assert_eq!(choose_scroll_bar(1, false, false), ScrollBarChoice::Horizontal);
}

#[test]
fn released_values() {
    // the bar's value is the negated offset: offset 40
    assert_eq!(released_value(SC_SCROLL_BAR_ADD_PAGE, -40, 25, 100), 65);
    assert_eq!(released_value(SC_SCROLL_BAR_SUB_PAGE, -40, 25, 100), 15);
    assert_eq!(released_value(SC_SCROLL_BAR_ADD_LINE, -40, 25, 100), 43);
    assert_eq!(released_value(SC_SCROLL_BAR_SUB_LINE, -40, 25, 100), 37);
    assert_eq!(released_value(SC_SCROLL_BAR_FIRST, -40, 25, 100), 0);
    assert_eq!(released_value(SC_SCROLL_BAR_LAST, -40, 25, 100), 100);
    assert_eq!(released_value(SC_SCROLL_BAR_SLIDER, -40, 25, 100), 40);
    assert_eq!(released_value(0, -40, 25, 100), 40);
}

#[test]
fn released_values_are_clamped() {
    assert_eq!(released_value(SC_SCROLL_BAR_ADD_PAGE, -90, 25, 100), 100);
    assert_eq!(released_value(SC_SCROLL_BAR_SUB_PAGE, -10, 25, 100), 0);
    assert_eq!(released_value(SC_SCROLL_BAR_SUB_LINE, -1, 25, 100), 0);
    // a negative maximum leaves only 0
    assert_eq!(released_value(SC_SCROLL_BAR_LAST, 0, 25, -5), 0);
    // extreme values do not overflow
    assert_eq!(released_value(SC_SCROLL_BAR_ADD_PAGE, i32::MIN, i32::MAX, i32::MAX), i32::MAX);
    assert_eq!(released_value(SC_SCROLL_BAR_SUB_PAGE, i32::MAX, i32::MAX, i32::MAX), 0);
}

#[test]
fn press_on_slider_starts_drag() {
    let step = scroll_bar_event(IDLE, false, MouseEventKind::Pressed, SC_SCROLL_BAR_SLIDER, 17, -40, 25, 100);
    assert_eq!(step.state, ScrollBarState { active_controls: SC_SCROLL_BAR_SLIDER, pressed: 2 });
    assert_eq!(step.result, InputEventResult::GrabMouse);
    assert_eq!(step.action, ScrollAction::StartDrag { pressed_x: 17, pressed_val: 40 });
}

#[test]
fn press_on_page_keeps_value() {
    let step = scroll_bar_event(IDLE, true, MouseEventKind::Pressed, SC_SCROLL_BAR_ADD_PAGE, 3, -40, 25, 100);
    assert_eq!(step.state, ScrollBarState { active_controls: SC_SCROLL_BAR_ADD_PAGE, pressed: 1 });
    assert_eq!(step.result, InputEventResult::GrabMouse);
    assert_eq!(step.action, ScrollAction::Keep);
}

#[test]
fn release_moves_by_active_part() {
    let held = ScrollBarState { active_controls: SC_SCROLL_BAR_ADD_PAGE, pressed: 1 };
    // the part under the pointer at release time does not matter
    let step = scroll_bar_event(held, true, MouseEventKind::Released, SC_SCROLL_BAR_SUB_LINE, 3, -40, 25, 100);
    assert_eq!(step.state, ScrollBarState { active_controls: SC_SCROLL_BAR_ADD_PAGE, pressed: 0 });
    assert_eq!(step.result, InputEventResult::EventIgnored);
    assert_eq!(step.action, ScrollAction::SetValue(65));
}

#[test]
fn exit_frees_mouse() {
    let held = ScrollBarState { active_controls: SC_SCROLL_BAR_SLIDER, pressed: 2 };
    let step = scroll_bar_event(held, false, MouseEventKind::Exit, 0, 0, 0, 25, 100);
    assert_eq!(step.state, ScrollBarState { active_controls: SC_SCROLL_BAR_SLIDER, pressed: 0 });
    assert_eq!(step.result, InputEventResult::EventIgnored);
    assert_eq!(step.action, ScrollAction::Keep);
}

#[test]
fn move_drags_only_a_grabbed_slider() {
    let held = ScrollBarState { active_controls: SC_SCROLL_BAR_SLIDER, pressed: 2 };
    let step = scroll_bar_event(held, false, MouseEventKind::Moved, 0, 30, -40, 25, 100);
    assert_eq!(step.state, held);
    assert_eq!(step.result, InputEventResult::GrabMouse);
    assert_eq!(step.action, ScrollAction::Drag);

    let free = ScrollBarState { active_controls: SC_SCROLL_BAR_SLIDER, pressed: 0 };
    let step = scroll_bar_event(free, false, MouseEventKind::Moved, 0, 30, -40, 25, 100);
    assert_eq!(step.state, free);
    assert_eq!(step.result, InputEventResult::EventAccepted);
    assert_eq!(step.action, ScrollAction::Keep);

    let page = ScrollBarState { active_controls: SC_SCROLL_BAR_ADD_PAGE, pressed: 1 };
    let step = scroll_bar_event(page, true, MouseEventKind::Moved, 0, 30, -40, 25, 100);
    assert_eq!(step.result, InputEventResult::EventAccepted);
    assert_eq!(step.action, ScrollAction::Keep);
}

#[test]
fn wheel_is_accepted() {
    let held = ScrollBarState { active_controls: SC_SCROLL_BAR_SLIDER, pressed: 2 };
    let step = scroll_bar_event(held, false, MouseEventKind::Wheel, 0, 30, -40, 25, 100);
    assert_eq!(step.state, held);
    assert_eq!(step.result, InputEventResult::EventAccepted);
    assert_eq!(step.action, ScrollAction::Keep);
}

#[test]
fn law_press_grabs_bar_on_example() {
    let step = scroll_bar_event(IDLE, true, MouseEventKind::Pressed, SC_SCROLL_BAR_SUB_LINE, 3, 0, 25, 100);
    // even with the pointer over the vertical bar, the horizontal bar keeps the mouse
    assert_eq!(choose_scroll_bar(step.state.pressed, true, false), ScrollBarChoice::Horizontal);
    let released = scroll_bar_event(step.state, true, MouseEventKind::Released, 0, 3, 0, 25, 100);
    assert_eq!(choose_scroll_bar(released.state.pressed, true, false), ScrollBarChoice::Vertical);
}

#[test]
fn law_page_round_trip_on_example() {
    let forward = released_value(SC_SCROLL_BAR_ADD_PAGE, -30, 20, 100);
    assert_eq!(forward, 50);
    assert_eq!(released_value(SC_SCROLL_BAR_SUB_PAGE, -forward, 20, 100), 30);
    let line = released_value(SC_SCROLL_BAR_ADD_LINE, -30, 20, 100);
    assert_eq!(released_value(SC_SCROLL_BAR_SUB_LINE, -line, 20, 100), 30);
}

#[test]
fn paddings_from_probe_frame() {
    // a 1000x1000 probe frame has its last pixel at 999
    let frame = RectEdges { left: 0, top: 0, right: 999, bottom: 999 };
    let contents = RectEdges { left: 2, top: 2, right: 997, bottom: 997 };
    let m = frame_paddings(frame, contents, 16, 14);
    assert_eq!(m, Margins { left: 2, top: 2, right: 18, bottom: 16 });
    assert_eq!(corner_size(m), (16, 14));
}
