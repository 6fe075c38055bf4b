//! Layout arithmetic of the page renderer: splitting the screen into the
//! main content area plus a one-row status line, and splitting a region
//! into two side-by-side panes.

use vstd::prelude::*;

verus! {

/// A rectangular screen region, measured in terminal cells.
#[derive(Clone, Copy, Debug, PartialEq, Eq, Structural)]
pub struct Region {
    pub x: u16,
    pub y: u16,
    pub width: u16,
    pub height: u16,
}

/// A region is well formed when it stays inside the addressable cell
/// space: its right and bottom edges still fit in `u16`.
pub open spec fn region_wf(r: Region) -> bool {
    r.x + r.width <= u16::MAX && r.y + r.height <= u16::MAX
}

/// Split a region vertically into the main content area and a single
/// status row at the bottom; the main area receives everything except
/// that row. A region of height zero yields two empty regions.
pub fn split_main_status(area: Region) -> (r: (Region, Region))
    requires
        region_wf(area),
    ensures
        ({
            let (main, status) = r;
            &&& main.x == area.x && main.y == area.y && main.width == area.width
            &&& status.x == area.x && status.width == area.width
            &&& status.height == if area.height >= 1 { 1u16 } else { 0u16 }
            &&& main.height + status.height == area.height
            &&& status.y == area.y + main.height
            &&& region_wf(main) && region_wf(status)
        }),
{
    let status_h: u16 = if area.height >= 1 { 1 } else { 0 };
    let main_h: u16 = area.height - status_h;
    (
        Region { x: area.x, y: area.y, width: area.width, height: main_h },
        Region { x: area.x, y: area.y + main_h, width: area.width, height: status_h },
    )
}

/// Split a region horizontally into two side-by-side panes of equal
/// width; on an odd width the left pane receives the extra cell. The
/// panes are adjacent, cover the region exactly, and never overlap.
pub fn split_columns(area: Region) -> (r: (Region, Region))
    requires
        region_wf(area),
    ensures
        ({
            let (left, right) = r;
            &&& left.x == area.x && left.y == area.y && left.height == area.height
            &&& right.y == area.y && right.height == area.height
            &&& left.width + right.width == area.width
            &&& right.x == area.x + left.width
            &&& left.width <= right.width + 1 && right.width <= left.width + 1
            &&& region_wf(left) && region_wf(right)
        }),
{
    let half: u16 = area.width / 2;
    let left_w: u16 = area.width - half;
    (
        Region { x: area.x, y: area.y, width: left_w, height: area.height },
        Region { x: area.x + left_w, y: area.y, width: half, height: area.height },
    )
}

} // verus!
