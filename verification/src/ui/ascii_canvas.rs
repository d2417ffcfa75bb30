//! Placement of the logo canvas and of the help label on the table border.
use vstd::prelude::*;

verus! {

/// Horizontal alignment of a canvas.
#[derive(Clone, Copy, Debug, PartialEq, Eq, Structural)]
pub enum Alignment {
    Left,
    Center,
    Right,
}

/// The help label drawn over the right end of the table's top border.
pub const HELP_LABEL: &'static str = "┤ [F4] Help ├";

/// The byte length of the help label, which is what it is placed by.
pub const HELP_LABEL_BYTES: u16 = 17;

/// Saturating subtraction on `u16`.
pub open spec fn sat_sub(a: int, b: int) -> int {
    if a >= b { a - b } else { 0 }
}

/// The first column of a canvas `max_w` characters wide (as `u16`, the
/// width truncated) in an area `width` wide.
pub open spec fn spec_canvas_left(alignment: Alignment, width: u16, max_w: usize) -> int {
    match alignment {
        Alignment::Center => sat_sub((width / 2) as int, ((max_w as u16) / 2) as int),
        Alignment::Right => sat_sub(width as int, (max_w as u16) as int),
        Alignment::Left => 0,
    }
}

/// The first column of a canvas.
pub fn canvas_left(alignment: Alignment, width: u16, max_w: usize) -> (r: u16)
    ensures
        r == spec_canvas_left(alignment, width, max_w),
{
    let w = max_w as u16;
    match alignment {
        Alignment::Center => (width / 2).saturating_sub(w / 2),
        Alignment::Right => width.saturating_sub(w),
        Alignment::Left => 0,
    }
}

/// Whether a canvas of `max_h` lines is drawn: both sides of the area must
/// be at least `max_h` (as `u16`, truncated).
pub fn canvas_fits(width: u16, height: u16, max_h: usize) -> (r: bool)
    ensures
        r == !(width < max_h as u16 || height < max_h as u16),
{
    !(width < max_h as u16 || height < max_h as u16)
}

/// The column where the help label starts: one column in from the right
/// end of the area, if that lies at or after column 0.
pub fn help_label_x(area_x: u16, area_width: u16) -> (r: Option<u16>)
    ensures
        r == (if area_x + area_width <= u16::MAX && area_x + area_width - 18 >= 0 {
            Some((area_x + area_width - 18) as u16)
        } else {
            None
        }),
{
    if area_width > u16::MAX - area_x {
        return None;
    }
    let right = area_x + area_width;
    if right < HELP_LABEL_BYTES + 1 {
        None
    } else {
        Some(right - HELP_LABEL_BYTES - 1)
    }
}

} // verus!
