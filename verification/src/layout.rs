//! Partitioning the screen for one frame.
//!
//! The frame area is inset by a one-cell margin on every side, and
//! what remains is split vertically: the top three tenths (rounded
//! down) for the progress gauge, everything below for the task list.

use vstd::arithmetic::div_mod::lemma_multiply_divide_le;
use vstd::prelude::*;

verus! {

/// A rectangle of terminal cells: its top-left corner, width and
/// height.
#[derive(Clone, Copy, Debug, PartialEq, Eq, Structural)]
pub struct Region {
    pub x: u16,
    pub y: u16,
    pub width: u16,
    pub height: u16,
}

/// A region whose far corner still lies within the terminal's
/// coordinate space.
pub open spec fn valid_region(a: Region) -> bool {
    &&& a.x + a.width <= u16::MAX
    &&& a.y + a.height <= u16::MAX
}

/// `inner` lies wholly within `outer`.
pub open spec fn region_within(inner: Region, outer: Region) -> bool {
    &&& outer.x <= inner.x
    &&& inner.x + inner.width <= outer.x + outer.width
    &&& outer.y <= inner.y
    &&& inner.y + inner.height <= outer.y + outer.height
}

/// `a` inset by a one-cell margin on every side. An area too narrow
/// or too low to keep anything inside the margin leaves an empty
/// region at its corner.
pub open spec fn spec_inner(a: Region) -> Region {
    if a.width >= 2 && a.height >= 2 {
        Region {
            x: (a.x + 1) as u16,
            y: (a.y + 1) as u16,
            width: (a.width - 2) as u16,
            height: (a.height - 2) as u16,
        }
    } else {
        Region { x: a.x, y: a.y, width: 0, height: 0 }
    }
}

/// The gauge's share of the inner height: three tenths, rounded down.
pub open spec fn spec_gauge_height(a: Region) -> int {
    spec_inner(a).height * 30 / 100
}

/// Where the two widgets of one frame go: the gauge region on top,
/// the list region below it.
pub open spec fn spec_split(a: Region) -> (Region, Region) {
    let inner = spec_inner(a);
    let gauge_height = (inner.height * 30 / 100) as u16;
    (
        Region { x: inner.x, y: inner.y, width: inner.width, height: gauge_height },
        Region {
            x: inner.x,
            y: (inner.y + gauge_height) as u16,
            width: inner.width,
            height: (inner.height - gauge_height) as u16,
        },
    )
}

/// Rounding down three tenths of a height never exceeds the height.
proof fn lemma_gauge_height_fits(h: u16)
    ensures
        0 <= h * 30 / 100 <= h,
{
    lemma_multiply_divide_le(h * 30, 100, h as int);
}

/// Splits the frame area into the gauge region and the list region:
/// the area inset by a one-cell margin, parted vertically, the gauge
/// on top with three tenths of the inner height, the list below with
/// the rest. The two regions share the inner width, touch without
/// overlapping, and lie within the area.
pub fn split_layout(area: Region) -> (r: (Region, Region))
    requires
        valid_region(area),
    ensures
        r == spec_split(area),
        r.0.height == spec_gauge_height(area),
        r.0.height + r.1.height == spec_inner(area).height,
        r.1.y == r.0.y + r.0.height,
        r.0.x == r.1.x == spec_inner(area).x,
        r.0.width == r.1.width == spec_inner(area).width,
        region_within(r.0, area),
        region_within(r.1, area),
        valid_region(r.0),
        valid_region(r.1),
{
    let inner: Region = if area.width >= 2 && area.height >= 2 {
        Region { x: area.x + 1, y: area.y + 1, width: area.width - 2, height: area.height - 2 }
    } else {
        Region { x: area.x, y: area.y, width: 0, height: 0 }
    };
    proof {
        lemma_gauge_height_fits(inner.height);
    }
    let gauge_height: u16 = ((inner.height as u32) * 30 / 100) as u16;
    let gauge = Region { x: inner.x, y: inner.y, width: inner.width, height: gauge_height };
    let list = Region {
        x: inner.x,
        y: inner.y + gauge_height,
        width: inner.width,
        height: inner.height - gauge_height,
    };
    (gauge, list)
}

} // verus!
