//! Screen layouts: how one frame arranges widgets on the display.

use crate::widgets::WidgetId;
use vstd::prelude::*;

verus! {

/// One frame's arrangement of widgets. Each variant names the widgets it
/// shows by identifier; the display geometry itself lives with the
/// rendering layer.
#[derive(Clone, Copy, Debug, PartialEq, Eq, Structural)]
pub enum MemoriLayout {
    /// One widget filling the display.
    Full(WidgetId),
    /// Two widgets side by side.
    VSplit { left: WidgetId, right: WidgetId },
    /// Two widgets stacked.
    HSplit { top: WidgetId, bottom: WidgetId },
    /// A full-height widget on the left, two stacked on the right.
    VSplitWithRightHSplit { left: WidgetId, right_top: WidgetId, right_bottom: WidgetId },
    /// Two widgets above, one full-width below.
    HSplitWithTopVSplit { bottom: WidgetId, top_right: WidgetId, top_left: WidgetId },
    /// Two stacked on the left, one full-height on the right.
    VSplitWithLeftHSplit { left_top: WidgetId, left_bottom: WidgetId, right: WidgetId },
    /// One full-width above, two side by side below.
    HSplitWithBottomVSplit { top: WidgetId, bottom_left: WidgetId, bottom_right: WidgetId },
    /// Four quadrants.
    Fourths {
        top_left: WidgetId,
        top_right: WidgetId,
        bottom_left: WidgetId,
        bottom_right: WidgetId,
    },
}

impl View for MemoriLayout {
    type V = MemoriLayout;

    open spec fn view(&self) -> MemoriLayout {
        *self
    }
}

} // verus!
