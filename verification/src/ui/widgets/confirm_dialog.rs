//! Placement of the small confirmation and warning dialogs.

use vstd::prelude::*;

use crate::ui::rect::{min_int, Rect};

verus! {

/// A dialog of at most `width` by `height` cells centred in `area` (rounded
/// towards the top-left), held to the area's size.
pub open spec fn centered_dialog_spec(area: Rect, width: int, height: int) -> Rect {
    let w = min_int(width, area.width as int);
    let h = min_int(height, area.height as int);
    Rect::placed(area.x + (area.width - w) / 2, area.y + (area.height - h) / 2, w, h)
}

/// Whether the corner of a dialog of at most `width` by `height` cells
/// centred in `area` can be counted in sixteen bits.
pub open spec fn centered_fits(area: Rect, width: int, height: int) -> bool {
    &&& area.x + (area.width - min_int(width, area.width as int)) / 2 <= u16::MAX
    &&& area.y + (area.height - min_int(height, area.height as int)) / 2 <= u16::MAX
}

/// A dialog centred in `area`; see `centered_dialog_spec`.
pub fn centered_dialog_rect(area: Rect, width: u16, height: u16) -> (r: Rect)
    requires
        centered_fits(area, width as int, height as int),
    ensures
        r == centered_dialog_spec(area, width as int, height as int),
{
    let width = if width < area.width { width } else { area.width };
    let height = if height < area.height { height } else { area.height };
    Rect::new(area.x + (area.width - width) / 2, area.y + (area.height - height) / 2, width, height)
}

/// A centred dialog lies inside its area, and is as large as asked where the
/// area allows.
pub proof fn centered_dialog_lies_in_area(area: Rect, width: int, height: int)
    requires
        area.x + area.width <= u16::MAX,
        area.y + area.height <= u16::MAX,
        0 <= width,
        0 <= height,
    ensures
        ({
            let r = centered_dialog_spec(area, width, height);
            &&& area.x <= r.x && r.x + r.width <= area.x + area.width
            &&& area.y <= r.y && r.y + r.height <= area.y + area.height
            &&& r.width == min_int(width, area.width as int)
            &&& r.height == min_int(height, area.height as int)
        }),
{
}

} // verus!
