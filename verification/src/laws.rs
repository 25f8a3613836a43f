//! Properties that relate several operations or all inputs of one,
//! stated and proved once.

use vstd::prelude::*;

use crate::driver::{set_backlight_ops, set_color_ops};
use crate::pins::{Direction, PinOp, LCD_BACKLIGHT};

verus! {

/// Color thresholding: the pin levels of a color change depend only on
/// whether each channel intensity is above 1. Any two requests that agree
/// on that — such as `(2, 0, 2)` and `(100, 0, 100)` — produce identical
/// pin output.
pub proof fn lemma_set_color_threshold(r1: u8, g1: u8, b1: u8, r2: u8, g2: u8, b2: u8)
    requires
        (r1 > 1) == (r2 > 1),
        (g1 > 1) == (g2 > 1),
        (b1 > 1) == (b2 > 1),
    ensures
        set_color_ops(r1, g1, b1) == set_color_ops(r2, g2, b2),
{
    assert(set_color_ops(r1, g1, b1) =~= set_color_ops(r2, g2, b2));
}

/// Switching the backlight is always a single direction reconfiguration of
/// the backlight pin — never a level write: the pin is driven as an output
/// to light the LED and released to an input to let the external pull
/// network turn it off. Together with `set_backlight`'s contract (the
/// tracked state always becomes the argument), switching on and then off
/// leaves the tracked state off.
pub proof fn lemma_set_backlight_reconfigures_direction(on: bool)
    ensures
        set_backlight_ops(on).len() == 1,
        set_backlight_ops(on)[0] == (PinOp::SetDirection {
            pin: LCD_BACKLIGHT,
            direction: if on {
                Direction::Output
            } else {
                Direction::Input
            },
        }),
        set_backlight_ops(on)[0] is SetDirection,
{
}

} // verus!
