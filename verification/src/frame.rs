//! Integer geometry of the scroll view's frame: the paddings that leave
//! room for the frame and the scroll bars, and the corner between the bars.

use vstd::prelude::*;

verus! {

/// The edges of a pixel rectangle, inclusive as in Qt's `QRect`
/// (`right == left + width - 1`).
#[derive(Clone, Copy, Debug, PartialEq, Eq, Structural)]
pub struct RectEdges {
    pub left: i32,
    pub top: i32,
    pub right: i32,
    pub bottom: i32,
}

/// Margins around the contents of the scroll view.
#[derive(Clone, Copy, Debug, Default, PartialEq, Eq, Structural)]
pub struct Margins {
    pub left: i32,
    pub top: i32,
    pub right: i32,
    pub bottom: i32,
}

/// The paddings of the scroll view, measured on a probe frame: the left and
/// top paddings are where the contents start inside the frame; the right and
/// bottom paddings are the frame's share on that side plus the width of the
/// vertical bar and the height of the horizontal bar.
pub open spec fn spec_frame_paddings(
    frame: RectEdges,
    contents: RectEdges,
    vertical_bar_width: int,
    horizontal_bar_height: int,
) -> (int, int, int, int) {
    (
        contents.left as int,
        contents.top as int,
        vertical_bar_width + frame.right - contents.right,
        horizontal_bar_height + frame.bottom - contents.bottom,
    )
}

/// Computes the scroll view's paddings from the probe frame `frame`, the
/// contents rectangle that the style reserves inside it, and the sizes of
/// the two scroll bars.
pub fn frame_paddings(
    frame: RectEdges,
    contents: RectEdges,
    vertical_bar_width: i32,
    horizontal_bar_height: i32,
) -> (m: Margins)
    requires
        i32::MIN <= vertical_bar_width + frame.right <= i32::MAX,
        i32::MIN <= vertical_bar_width + frame.right - contents.right <= i32::MAX,
        i32::MIN <= horizontal_bar_height + frame.bottom <= i32::MAX,
        i32::MIN <= horizontal_bar_height + frame.bottom - contents.bottom <= i32::MAX,
    ensures
        (m.left as int, m.top as int, m.right as int, m.bottom as int) == spec_frame_paddings(
            frame,
            contents,
            vertical_bar_width as int,
            horizontal_bar_height as int,
        ),
{
    Margins {
        left: contents.left,
        top: contents.top,
        right: vertical_bar_width + frame.right - contents.right,
        bottom: horizontal_bar_height + frame.bottom - contents.bottom,
    }
}

/// The size of the corner between the two scroll bars, assuming the frame
/// is as wide on both sides: the bar thicknesses are what the right and
/// bottom margins exceed the left and top ones by.
pub fn corner_size(margins: Margins) -> (size: (i32, i32))
    requires
        i32::MIN <= margins.right - margins.left <= i32::MAX,
        i32::MIN <= margins.bottom - margins.top <= i32::MAX,
    ensures
        size.0 == margins.right - margins.left,
        size.1 == margins.bottom - margins.top,
{
    (margins.right - margins.left, margins.bottom - margins.top)
}


/// The left and top paddings are where the contents start; the right and
/// bottom paddings are the room the frame leaves after the contents plus
/// the thickness of the bar on that side.
pub proof fn law_frame_paddings(frame: RectEdges, contents: RectEdges, vertical_bar_width: int, horizontal_bar_height: int)
    ensures
        spec_frame_paddings(frame, contents, vertical_bar_width, horizontal_bar_height).0 == contents.left,
        spec_frame_paddings(frame, contents, vertical_bar_width, horizontal_bar_height).1 == contents.top,
        spec_frame_paddings(frame, contents, vertical_bar_width, horizontal_bar_height).2 - vertical_bar_width
            == frame.right - contents.right,
        spec_frame_paddings(frame, contents, vertical_bar_width, horizontal_bar_height).3 - horizontal_bar_height
            == frame.bottom - contents.bottom,
{
}

} // verus!
