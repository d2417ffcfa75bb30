//! The animation shown while no game is attached: its character ramp and
//! the banner over it.
use vstd::prelude::*;
use vstd::string::*;

verus! {

/// The characters of the animation, from dark to bright.
pub const TERM_COLOR_RAMP: &'static str = " .:-=+*#%@█";

/// The ripple animation; `start_time` is when it started (milliseconds on
/// the caller's clock).
#[derive(Clone, Copy, Debug)]
pub struct LeviRipple {
    pub start_time: u64,
    pub ms_count: u64,
}

/// The ramp position of an intensity: the intensity scaled to the eleven
/// characters of the ramp, the brightest shared by the top value.
pub open spec fn ramp_index(intensity: u8) -> int {
    let m = (11 * intensity as int) / 255;
    if m > 10 { 10 } else { m }
}

/// The ramp character of an intensity.
pub fn char_from_intensity(intensity: u8) -> (c: char)
    ensures
        c == TERM_COLOR_RAMP@[ramp_index(intensity)],
        0 <= ramp_index(intensity) <= 10,
{
    proof {
        reveal_strlit(" .:-=+*#%@█");
    }
    let m: u32 = (11 * intensity as u32) / 255;
    let idx: u32 = if m > 10 { 10 } else { m };
    TERM_COLOR_RAMP.get_char(idx as usize)
}

/// A brighter intensity never gets a darker character.
pub proof fn lemma_ramp_monotone(a: u8, b: u8)
    requires
        a <= b,
    ensures
        ramp_index(a) <= ramp_index(b),
{
    assert(11 * a as int <= 11 * b as int);
    assert((11 * a as int) / 255 <= (11 * b as int) / 255) by (nonlinear_arith)
        requires
            11 * a as int <= 11 * b as int,
    ;
}

/// The message over the animation: the shorter one on even widths, so that
/// it can be centred.
pub fn waiting_message(width: u16) -> (s: &'static str)
    ensures
        s@ == (if width % 2 == 0 { "Waiting for Game"@ } else { "Waiting for Devil Daggers"@ }),
{
    if width % 2 == 0 {
        "Waiting for Game"
    } else {
        "Waiting for Devil Daggers"
    }
}

/// Where the banner goes: the three rows of the black bar (centre row and
/// the rows above and below), the column where the bar starts (eight
/// characters left of the message), the column of the message, and the
/// widths of bar and message.
#[derive(Clone, Copy, Debug, PartialEq, Eq, Structural)]
pub struct BannerLayout {
    pub bar_x: u16,
    pub message_x: u16,
    pub top_y: u16,
    pub middle_y: u16,
    pub bottom_y: u16,
    pub bar_width: u16,
    pub message_width: u16,
}

/// The banner of a message `msg_len` characters long on an area of the
/// given size, if the area leaves room for it above and left of the centre.
pub open spec fn spec_banner_layout(width: u16, height: u16, msg_len: int) -> Option<BannerLayout> {
    let x = width / 2 - msg_len / 2;
    if x - 8 < 0 || height / 2 < 1 || msg_len + 16 > u16::MAX {
        None
    } else {
        Some(BannerLayout {
            bar_x: (x - 8) as u16,
            message_x: x as u16,
            top_y: (height / 2 - 1) as u16,
            middle_y: (height / 2) as u16,
            bottom_y: (height / 2 + 1) as u16,
            bar_width: (msg_len + 16) as u16,
            message_width: msg_len as u16,
        })
    }
}

/// The banner of the waiting message on an area of the given size.
pub fn banner_layout(width: u16, height: u16) -> (r: Option<BannerLayout>)
    ensures
        r == spec_banner_layout(width, height, (if width % 2 == 0 { 16int } else { 25int })),
{
    let msg_len: u16 = if width % 2 == 0 { 16 } else { 25 };
    let half = width / 2;
    let half_msg = msg_len / 2;
    if half < half_msg || half - half_msg < 8 || height / 2 < 1 {
        return None;
    }
    let x = half - half_msg;
    Some(BannerLayout {
        bar_x: x - 8,
        message_x: x,
        top_y: height / 2 - 1,
        middle_y: height / 2,
        bottom_y: height / 2 + 1,
        bar_width: msg_len + 16,
        message_width: msg_len,
    })
}

} // verus!
