//! Screen geometry of the main window and the rectangle of the popup under it.

use vstd::prelude::*;

verus! {

/// Top-left corner of a window's outer frame.
#[derive(Clone, Copy, Debug, PartialEq, Eq, Structural)]
pub struct Position {
    pub x: i32,
    pub y: i32,
}

/// Extent of a window's outer frame.
#[derive(Clone, Copy, Debug, PartialEq, Eq, Structural)]
pub struct Size {
    pub width: u32,
    pub height: u32,
}

/// The popup's fixed extent and the gap kept between it and the main window.
#[derive(Clone, Copy, Debug, PartialEq, Eq, Structural)]
pub struct PopupLayout {
    pub width: u32,
    pub height: u32,
    pub margin: u32,
}

/// The rectangle a popup is built at.
///
/// Centring halves a difference of widths, so the horizontal coordinate may
/// fall between two whole units: it is `x`, plus one half where `x_half` is set.
#[derive(Clone, Copy, Debug, PartialEq, Eq, Structural)]
pub struct Placement {
    pub x: i64,
    pub x_half: bool,
    pub y: i64,
    pub width: u32,
    pub height: u32,
}

/// Twice the horizontal coordinate at which a popup of width `popup_width` is
/// centred on a window of width `width` whose left edge is at `x`.
pub open spec fn centred_x_twice(x: int, width: int, popup_width: int) -> int {
    2 * x + (width - popup_width)
}

/// The vertical coordinate `margin` units below the lower edge of a window of
/// height `height` whose upper edge is at `y`.
pub open spec fn below_y(y: int, height: int, margin: int) -> int {
    y + height + margin
}

/// The 450 by 350 popup, 5 units below the main window.
pub open spec fn standard_layout() -> PopupLayout {
    PopupLayout { width: 450, height: 350, margin: 5 }
}

/// The popup's rectangle for a main window at `position` of extent `size`.
pub open spec fn placement_of(position: Position, size: Size, layout: PopupLayout) -> Placement {
    let twice = centred_x_twice(position.x as int, size.width as int, layout.width as int);
    Placement {
        x: (twice / 2) as i64,
        x_half: twice % 2 == 1,
        y: below_y(position.y as int, size.height as int, layout.margin as int) as i64,
        width: layout.width,
        height: layout.height,
    }
}

impl Placement {
    /// Twice the horizontal coordinate, as a whole number.
    pub open spec fn x_twice(self) -> int {
        2 * self.x + if self.x_half { 1int } else { 0int }
    }
}

impl PopupLayout {
    /// The layout the popup is opened with.
    pub fn standard() -> (layout: PopupLayout)
        ensures
            layout == standard_layout(),
    {
        PopupLayout { width: 450, height: 350, margin: 5 }
    }
}

/// Places the popup horizontally centred on the main window and `margin`
/// units below it. No geometry is out of range: the result is exact for every
/// position and extent.
pub fn place_popup(position: Position, size: Size, layout: &PopupLayout) -> (placement: Placement)
    ensures
        placement == placement_of(position, size, *layout),
        placement.x_twice() == centred_x_twice(
            position.x as int,
            size.width as int,
            layout.width as int,
        ),
        placement.y == below_y(position.y as int, size.height as int, layout.margin as int),
        placement.width == layout.width,
        placement.height == layout.height,
{
    let twice: i64 = 2 * (position.x as i64) + (size.width as i64 - layout.width as i64);
    let x_half: bool = (size.width % 2) != (layout.width % 2);
    let even: i64 = if x_half { twice - 1 } else { twice };
    let x: i64 = even / 2;
    let y: i64 = position.y as i64 + size.height as i64 + layout.margin as i64;
    Placement { x, x_half, y, width: layout.width, height: layout.height }
}

} // verus!
