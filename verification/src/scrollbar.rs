//! Mouse handling of the scroll bars of the native scroll view: which bar
//! an event goes to, how the pressed state changes, and where a click on a
//! bar part moves the scroll position.

use vstd::prelude::*;

verus! {

/// Qt's `QStyle::SC_ScrollBarAddLine`: the arrow that scrolls one line forward.
pub const SC_SCROLL_BAR_ADD_LINE: u32 = 0x1;

/// Qt's `QStyle::SC_ScrollBarSubLine`: the arrow that scrolls one line back.
pub const SC_SCROLL_BAR_SUB_LINE: u32 = 0x2;

/// Qt's `QStyle::SC_ScrollBarAddPage`: the groove after the slider.
pub const SC_SCROLL_BAR_ADD_PAGE: u32 = 0x4;

/// Qt's `QStyle::SC_ScrollBarSubPage`: the groove before the slider.
pub const SC_SCROLL_BAR_SUB_PAGE: u32 = 0x8;

/// Qt's `QStyle::SC_ScrollBarFirst`: jump to the start.
pub const SC_SCROLL_BAR_FIRST: u32 = 0x10;

/// Qt's `QStyle::SC_ScrollBarLast`: jump to the end.
pub const SC_SCROLL_BAR_LAST: u32 = 0x20;

/// Qt's `QStyle::SC_ScrollBarSlider`: the slider itself.
pub const SC_SCROLL_BAR_SLIDER: u32 = 0x40;

/// How far a click on a line arrow moves the scroll position.
pub const LINE_STEP: i32 = 3;

/// The kind of a mouse event delivered to the scroll view.
#[derive(Clone, Copy, Debug, PartialEq, Eq, Structural)]
pub enum MouseEventKind {
    Pressed,
    Released,
    Moved,
    Wheel,
    Exit,
}

/// What the scroll view answers to a mouse event.
#[derive(Clone, Copy, Debug, PartialEq, Eq, Structural)]
pub enum InputEventResult {
    /// The event was accepted.
    EventAccepted,
    /// The event was ignored.
    EventIgnored,
    /// All further mouse events go to this item.
    GrabMouse,
}

impl Default for InputEventResult {
    fn default() -> (r: Self)
        ensures
            r == InputEventResult::EventIgnored,
    {
        InputEventResult::EventIgnored
    }
}

/// The bar that a mouse event is routed to.
#[derive(Clone, Copy, Debug, PartialEq, Eq, Structural)]
pub enum ScrollBarChoice {
    Vertical,
    Horizontal,
    Neither,
}

/// The integer part of the scroll bar's interaction state: the sub-control
/// under the last press, and which bar holds the mouse (0: none,
/// 1: horizontal, 2: vertical).
#[derive(Clone, Copy, Debug, PartialEq, Eq, Structural)]
pub struct ScrollBarState {
    pub active_controls: u32,
    pub pressed: u8,
}

/// What the caller does with the bar's value after an event.
#[derive(Clone, Copy, Debug, PartialEq, Eq, Structural)]
pub enum ScrollAction {
    /// Nothing beyond storing the new state.
    Keep,
    /// The slider was grabbed: remember the press position along the bar and
    /// the scroll position at that moment.
    StartDrag { pressed_x: i32, pressed_val: i32 },
    /// Move the scroll position to this (non-negative) offset.
    SetValue(i32),
    /// The grabbed slider follows the mouse.
    Drag,
}

/// The outcome of one mouse event on a scroll bar.
#[derive(Clone, Copy, Debug, PartialEq, Eq, Structural)]
pub struct ScrollBarStep {
    pub state: ScrollBarState,
    pub result: InputEventResult,
    pub action: ScrollAction,
}

/// The bar an event goes to: a bar that holds the mouse keeps it; otherwise
/// the vertical bar when the pointer is past the right padding edge, else
/// the horizontal bar when it is past the bottom padding edge.
pub open spec fn spec_choose_scroll_bar(pressed: u8, past_right_edge: bool, past_bottom_edge: bool) -> ScrollBarChoice {
    if pressed == 2 || (pressed == 0 && past_right_edge) {
        ScrollBarChoice::Vertical
    } else if pressed == 1 || past_bottom_edge {
        ScrollBarChoice::Horizontal
    } else {
        ScrollBarChoice::Neither
    }
}

/// Routes a mouse event to one of the two scroll bars, from the pressed
/// state and from where the pointer is relative to the padding edges.
pub fn choose_scroll_bar(pressed: u8, past_right_edge: bool, past_bottom_edge: bool) -> (c: ScrollBarChoice)
    ensures
        c == spec_choose_scroll_bar(pressed, past_right_edge, past_bottom_edge),
{
    if pressed == 2 || (pressed == 0 && past_right_edge) {
        ScrollBarChoice::Vertical
    } else if pressed == 1 || past_bottom_edge {
        ScrollBarChoice::Horizontal
    } else {
        ScrollBarChoice::Neither
    }
}

/// The scroll offset that a release on sub-control `active` aims at, before
/// clamping; `value` is the bar's value, the negated scroll offset.
pub open spec fn release_target(active: u32, value: int, page_size: int, max: int) -> int {
    if active == SC_SCROLL_BAR_ADD_PAGE {
        -value + page_size
    } else if active == SC_SCROLL_BAR_SUB_PAGE {
        -value - page_size
    } else if active == SC_SCROLL_BAR_ADD_LINE {
        -value + LINE_STEP
    } else if active == SC_SCROLL_BAR_SUB_LINE {
        -value - LINE_STEP
    } else if active == SC_SCROLL_BAR_FIRST {
        0
    } else if active == SC_SCROLL_BAR_LAST {
        max
    } else {
        -value
    }
}

/// `x` limited to at most `max`, then to at least 0.
pub open spec fn clamp_offset(x: int, max: int) -> int {
    let m = if x < max { x } else { max };
    if m > 0 { m } else { 0 }
}

/// The scroll offset after a release on sub-control `active`.
pub open spec fn spec_released_value(active: u32, value: int, page_size: int, max: int) -> int {
    clamp_offset(release_target(active, value, page_size, max), max)
}

/// The scroll offset after the mouse is released on sub-control
/// `active_controls`: a page or a line forward or back from the current
/// offset `-value`, the start, the end `max`, or the current offset, then
/// limited to at most `max` and at least 0.
pub fn released_value(active_controls: u32, value: i32, page_size: i32, max: i32) -> (r: i32)
    ensures
        r == spec_released_value(active_controls, value as int, page_size as int, max as int),
        0 <= r,
        max >= 0 ==> r <= max,
        max < 0 ==> r == 0,
{
    let offset: i64 = -(value as i64);
    let target: i64 = if active_controls == SC_SCROLL_BAR_ADD_PAGE {
        offset + page_size as i64
    } else if active_controls == SC_SCROLL_BAR_SUB_PAGE {
        offset - page_size as i64
    } else if active_controls == SC_SCROLL_BAR_ADD_LINE {
        offset + LINE_STEP as i64
    } else if active_controls == SC_SCROLL_BAR_SUB_LINE {
        offset - LINE_STEP as i64
    } else if active_controls == SC_SCROLL_BAR_FIRST {
        0
    } else if active_controls == SC_SCROLL_BAR_LAST {
        max as i64
    } else {
        offset
    };
    let limited: i64 = if target < max as i64 { target } else { max as i64 };
    if limited > 0 {
        limited as i32
    } else {
        0
    }
}

/// The outcome of a mouse event on one scroll bar.
pub open spec fn spec_scroll_bar_event(
    state: ScrollBarState,
    horizontal: bool,
    event: MouseEventKind,
    hit_control: u32,
    pos: i32,
    value: i32,
    page_size: i32,
    max: i32,
) -> ScrollBarStep {
    match event {
        MouseEventKind::Pressed => ScrollBarStep {
            state: ScrollBarState {
                active_controls: hit_control,
                pressed: if horizontal { 1 } else { 2 },
            },
            result: InputEventResult::GrabMouse,
            action: if hit_control == SC_SCROLL_BAR_SLIDER {
                ScrollAction::StartDrag { pressed_x: pos, pressed_val: (-value) as i32 }
            } else {
                ScrollAction::Keep
            },
        },
        MouseEventKind::Exit => ScrollBarStep {
            state: ScrollBarState { active_controls: state.active_controls, pressed: 0 },
            result: InputEventResult::EventIgnored,
            action: ScrollAction::Keep,
        },
        MouseEventKind::Released => ScrollBarStep {
            state: ScrollBarState { active_controls: state.active_controls, pressed: 0 },
            result: InputEventResult::EventIgnored,
            action: ScrollAction::SetValue(
                spec_released_value(state.active_controls, value as int, page_size as int, max as int) as i32,
            ),
        },
        MouseEventKind::Moved => if state.pressed != 0 && state.active_controls == SC_SCROLL_BAR_SLIDER {
            ScrollBarStep { state: state, result: InputEventResult::GrabMouse, action: ScrollAction::Drag }
        } else {
            ScrollBarStep { state: state, result: InputEventResult::EventAccepted, action: ScrollAction::Keep }
        },
        MouseEventKind::Wheel => ScrollBarStep {
            state: state,
            result: InputEventResult::EventAccepted,
            action: ScrollAction::Keep,
        },
    }
}

/// Handles a mouse event on one scroll bar. `hit_control` is the
/// sub-control under the pointer, `pos` the pointer position along the bar,
/// `value` the bar's value (the negated scroll offset), `page_size` and `max`
/// the bar's page size and maximum offset.
///
/// A press grabs the mouse for this bar and makes the part under the pointer
/// active (starting a drag when it is the slider); a release or an exit
/// frees the mouse, a release moving the scroll position by the active part;
/// a move drags a grabbed slider; a wheel event is accepted and changes
/// nothing.
pub fn scroll_bar_event(
    state: ScrollBarState,
    horizontal: bool,
    event: MouseEventKind,
    hit_control: u32,
    pos: i32,
    value: i32,
    page_size: i32,
    max: i32,
) -> (step: ScrollBarStep)
    requires
        event == MouseEventKind::Pressed && hit_control == SC_SCROLL_BAR_SLIDER ==> value != i32::MIN,
    ensures
        step == spec_scroll_bar_event(state, horizontal, event, hit_control, pos, value, page_size, max),
{
    match event {
        MouseEventKind::Pressed => {
            let action = if hit_control == SC_SCROLL_BAR_SLIDER {
                ScrollAction::StartDrag { pressed_x: pos, pressed_val: -value }
            } else {
                ScrollAction::Keep
            };
            ScrollBarStep {
                state: ScrollBarState {
                    active_controls: hit_control,
                    pressed: if horizontal { 1 } else { 2 },
                },
                result: InputEventResult::GrabMouse,
                action: action,
            }
        },
        MouseEventKind::Exit => ScrollBarStep {
            state: ScrollBarState { active_controls: state.active_controls, pressed: 0 },
            result: InputEventResult::EventIgnored,
            action: ScrollAction::Keep,
        },
        MouseEventKind::Released => {
            let new_val = released_value(state.active_controls, value, page_size, max);
            ScrollBarStep {
                state: ScrollBarState { active_controls: state.active_controls, pressed: 0 },
                result: InputEventResult::EventIgnored,
                action: ScrollAction::SetValue(new_val),
            }
        },
        MouseEventKind::Moved => {
            if state.pressed != 0 && state.active_controls == SC_SCROLL_BAR_SLIDER {
                ScrollBarStep { state: state, result: InputEventResult::GrabMouse, action: ScrollAction::Drag }
            } else {
                ScrollBarStep {
                    state: state,
                    result: InputEventResult::EventAccepted,
                    action: ScrollAction::Keep,
                }
            }
        },
        MouseEventKind::Wheel => ScrollBarStep {
            state: state,
            result: InputEventResult::EventAccepted,
            action: ScrollAction::Keep,
        },
    }
}


/// The bar that holds the mouse, as a routing choice.
pub open spec fn held_bar(horizontal: bool) -> ScrollBarChoice {
    if horizontal {
        ScrollBarChoice::Horizontal
    } else {
        ScrollBarChoice::Vertical
    }
}

/// After a press on a bar, every later event goes to that bar, wherever the
/// pointer is.
pub proof fn law_press_grabs_bar(
    state: ScrollBarState,
    horizontal: bool,
    hit_control: u32,
    pos: i32,
    value: i32,
    page_size: i32,
    max: i32,
    past_right_edge: bool,
    past_bottom_edge: bool,
)
    ensures
        spec_choose_scroll_bar(
            spec_scroll_bar_event(
                state,
                horizontal,
                MouseEventKind::Pressed,
                hit_control,
                pos,
                value,
                page_size,
                max,
            ).state.pressed,
            past_right_edge,
            past_bottom_edge,
        ) == held_bar(horizontal),
{
}

/// After a release or an exit, events are routed by the pointer position
/// alone, as when no bar held the mouse.
pub proof fn law_release_frees_bar(
    state: ScrollBarState,
    horizontal: bool,
    event: MouseEventKind,
    hit_control: u32,
    pos: i32,
    value: i32,
    page_size: i32,
    max: i32,
    past_right_edge: bool,
    past_bottom_edge: bool,
)
    requires
        event == MouseEventKind::Released || event == MouseEventKind::Exit,
    ensures
        spec_choose_scroll_bar(
            spec_scroll_bar_event(state, horizontal, event, hit_control, pos, value, page_size, max).state.pressed,
            past_right_edge,
            past_bottom_edge,
        ) == spec_choose_scroll_bar(0, past_right_edge, past_bottom_edge),
{
}

/// Moves and wheel events never change which bar holds the mouse nor the
/// active part.
pub proof fn law_move_keeps_state(
    state: ScrollBarState,
    horizontal: bool,
    event: MouseEventKind,
    hit_control: u32,
    pos: i32,
    value: i32,
    page_size: i32,
    max: i32,
)
    requires
        event == MouseEventKind::Moved || event == MouseEventKind::Wheel,
    ensures
        spec_scroll_bar_event(state, horizontal, event, hit_control, pos, value, page_size, max).state
            == state,
{
}

/// A release on the page-forward part followed by a release on the
/// page-back part returns to the starting offset, when the page fits
/// between the offset and the maximum.
pub proof fn law_page_round_trip(offset: int, page_size: int, max: int)
    requires
        0 <= offset,
        0 <= page_size,
        offset + page_size <= max,
    ensures
        spec_released_value(SC_SCROLL_BAR_ADD_PAGE, -offset, page_size, max) == offset + page_size,
        spec_released_value(
            SC_SCROLL_BAR_SUB_PAGE,
            -spec_released_value(SC_SCROLL_BAR_ADD_PAGE, -offset, page_size, max),
            page_size,
            max,
        ) == offset,
{
}

/// A release on the line-forward arrow followed by one on the line-back
/// arrow returns to the starting offset, when a line fits between the
/// offset and the maximum.
pub proof fn law_line_round_trip(offset: int, page_size: int, max: int)
    requires
        0 <= offset,
        offset + LINE_STEP <= max,
    ensures
        spec_released_value(SC_SCROLL_BAR_ADD_LINE, -offset, page_size, max) == offset + LINE_STEP,
        spec_released_value(
            SC_SCROLL_BAR_SUB_LINE,
            -spec_released_value(SC_SCROLL_BAR_ADD_LINE, -offset, page_size, max),
            page_size,
            max,
        ) == offset,
{
}

/// A release on the start or end part moves to 0 or to the maximum offset,
/// whatever the offset was.
pub proof fn law_first_last(value: int, page_size: int, max: int)
    requires
        0 <= max,
    ensures
        spec_released_value(SC_SCROLL_BAR_FIRST, value, page_size, max) == 0,
        spec_released_value(SC_SCROLL_BAR_LAST, value, page_size, max) == max,
{
}


/// While either bar holds the mouse on its slider, every move drags the
/// slider and keeps the mouse grabbed; without a held slider a move is
/// merely accepted.
pub proof fn law_move_drags_held_slider(
    state: ScrollBarState,
    horizontal: bool,
    hit_control: u32,
    pos: i32,
    value: i32,
    page_size: i32,
    max: i32,
)
    ensures
        ({
            let step = spec_scroll_bar_event(state, horizontal, MouseEventKind::Moved, hit_control, pos, value, page_size, max);
            if (state.pressed == 1 || state.pressed == 2) && state.active_controls == 0x40 {
                step.result == InputEventResult::GrabMouse && step.action == ScrollAction::Drag
            } else if state.pressed == 0 {
                step.result == InputEventResult::EventAccepted && step.action == ScrollAction::Keep
            } else {
                true
            }
        }),
{
}

/// A press on the slider of either bar starts a drag from the pointer
/// position and the current offset, and the next move drags it.
pub proof fn law_press_then_move_drags(
    state: ScrollBarState,
    horizontal: bool,
    pos: i32,
    value: i32,
    page_size: i32,
    max: i32,
    hit_on_move: u32,
    pos_on_move: i32,
)
    requires
        value > i32::MIN,
    ensures
        ({
            let press = spec_scroll_bar_event(state, horizontal, MouseEventKind::Pressed, 0x40, pos, value, page_size, max);
            let next = spec_scroll_bar_event(press.state, horizontal, MouseEventKind::Moved, hit_on_move, pos_on_move, value, page_size, max);
            &&& press.result == InputEventResult::GrabMouse
            &&& press.action == (ScrollAction::StartDrag { pressed_x: pos, pressed_val: (-value) as i32 })
            &&& press.state.pressed == (if horizontal { 1u8 } else { 2u8 })
            &&& next.result == InputEventResult::GrabMouse
            &&& next.action == ScrollAction::Drag
        }),
{
}

/// The offset after a release, for a current offset within `[0, max]` and a
/// non-negative page size: the line arrows move by three units and the page
/// areas by one page, each stopping at 0 and at `max`; the start and end
/// parts go to 0 and `max`; any other part keeps the offset.
pub proof fn law_released_offsets(active: u32, offset: int, page_size: int, max: int)
    requires
        0 <= offset <= max,
        0 <= page_size,
    ensures
        ({
            let r = spec_released_value(active, -offset, page_size, max);
            if active == 1 {
                r == (if offset + 3 <= max { offset + 3 } else { max })
            } else if active == 2 {
                r == (if offset >= 3 { offset - 3 } else { 0 })
            } else if active == 4 {
                r == (if offset + page_size <= max { offset + page_size } else { max })
            } else if active == 8 {
                r == (if offset >= page_size { offset - page_size } else { 0 })
            } else if active == 0x10 {
                r == 0
            } else if active == 0x20 {
                r == max
            } else {
                r == offset
            }
        }),
        offset < max && (active == 1 || (active == 4 && page_size > 0)) ==> spec_released_value(active, -offset, page_size, max) > offset,
        offset > 0 && (active == 2 || (active == 8 && page_size > 0)) ==> spec_released_value(active, -offset, page_size, max) < offset,
{
}


/// What each kind of event answers and does: a press grabs the mouse and
/// makes the part under the pointer active for the pressed bar; a release
/// frees the mouse, is ignored, and moves to the offset that the part active
/// since the press aims at; an exit frees the mouse and is ignored; a wheel
/// event is accepted and changes nothing.
pub proof fn law_event_outcomes(
    state: ScrollBarState,
    horizontal: bool,
    event: MouseEventKind,
    hit_control: u32,
    pos: i32,
    value: i32,
    page_size: i32,
    max: i32,
)
    ensures
        ({
            let step = spec_scroll_bar_event(state, horizontal, event, hit_control, pos, value, page_size, max);
            match event {
                MouseEventKind::Pressed => {
                    &&& step.result == InputEventResult::GrabMouse
                    &&& step.state.active_controls == hit_control
                    &&& step.state.pressed == (if horizontal { 1u8 } else { 2u8 })
                    &&& (hit_control != 0x40 ==> step.action == ScrollAction::Keep)
                },
                MouseEventKind::Released => {
                    &&& step.result == InputEventResult::EventIgnored
                    &&& step.state.pressed == 0
                    &&& step.state.active_controls == state.active_controls
                    &&& step.action == ScrollAction::SetValue(
                        spec_released_value(state.active_controls, value as int, page_size as int, max as int) as i32,
                    )
                },
                MouseEventKind::Exit => {
                    &&& step.result == InputEventResult::EventIgnored
                    &&& step.state.pressed == 0
                    &&& step.state.active_controls == state.active_controls
                    &&& step.action == ScrollAction::Keep
                },
                MouseEventKind::Wheel => {
                    &&& step.result == InputEventResult::EventAccepted
                    &&& step.state == state
                    &&& step.action == ScrollAction::Keep
                },
                MouseEventKind::Moved => step.state == state,
            }
        }),
{
}

/// Routing: a held bar keeps every event (1: horizontal, 2: vertical);
/// with no bar held, the vertical bar takes events past the right padding
/// edge, the horizontal one those past the bottom edge only, and the view
/// itself the rest.
pub proof fn law_routing(pressed: u8, past_right_edge: bool, past_bottom_edge: bool)
    ensures
        pressed == 2 ==> spec_choose_scroll_bar(pressed, past_right_edge, past_bottom_edge) == ScrollBarChoice::Vertical,
        pressed == 1 ==> spec_choose_scroll_bar(pressed, past_right_edge, past_bottom_edge) == ScrollBarChoice::Horizontal,
        pressed == 0 ==> spec_choose_scroll_bar(pressed, past_right_edge, past_bottom_edge) == (if past_right_edge {
            ScrollBarChoice::Vertical
        } else if past_bottom_edge {
            ScrollBarChoice::Horizontal
        } else {
            ScrollBarChoice::Neither
        }),
{
}

} // verus!
