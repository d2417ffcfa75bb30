//! The first terminal interface's widgets: its darker ripple ramp and the
//! colouring of split lines.
use vstd::prelude::*;
use vstd::string::*;
use crate::config::{Style, Styles};
use crate::ui::orb_animation::TERM_COLOR_RAMP;

verus! {

/// The ramp position of an intensity in the first interface: the intensity
/// scaled by twelve (the byte length of the ramp less one) over 255, kept
/// between the third and the eleventh character.
pub open spec fn classic_ramp_index(intensity: u8) -> int {
    let m = (12 * intensity as int) / 255;
    if m < 2 { 2 } else if m > 10 { 10 } else { m }
}

/// The ramp character of an intensity in the first interface.
pub fn char_from_intensity(intensity: u8) -> (c: char)
    ensures
        c == TERM_COLOR_RAMP@[classic_ramp_index(intensity)],
        2 <= classic_ramp_index(intensity) <= 10,
{
    proof {
        reveal_strlit(" .:-=+*#%@█");
    }
    let m: u32 = (12 * intensity as u32) / 255;
    let idx: u32 = if m < 2 { 2 } else if m > 10 { 10 } else { m };
    TERM_COLOR_RAMP.get_char(idx as usize)
}

/// Colours split lines of the game data table; `styles` replaces the
/// configured ones while colours are being edited.
#[derive(Clone, Copy, Debug)]
pub struct GameDataColorizer {
    pub styles: Option<Styles>,
}

impl GameDataColorizer {
    /// The styles in use: the edited ones if any, else the configured ones.
    pub fn active_styles(&self, configured: Styles) -> (r: Styles)
        ensures
            r == (match self.styles {
                Some(s) => s,
                None => configured,
            }),
    {
        match self.styles {
            Some(s) => s,
            None => configured,
        }
    }
}

/// The style of a split's difference: the positive style when its text
/// holds a `+`, else the negative one.
pub fn diff_style(diff_text: &str, styles: Styles) -> (r: Style)
    ensures
        r == (if diff_text@.contains('+') { styles.split_diff_pos } else { styles.split_diff_neg }),
{
    let n = diff_text.unicode_len();
    let mut i: usize = 0;
    while i < n
        invariant
            n == diff_text@.len(),
            i <= n,
            forall|k: int| 0 <= k < i ==> diff_text@[k] != '+',
        decreases n - i,
    {
        if diff_text.get_char(i) == '+' {
            return styles.split_diff_pos;
        }
        i = i + 1;
    }
    styles.split_diff_neg
}

} // verus!
