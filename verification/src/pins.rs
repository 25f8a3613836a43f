//! Names for the expander's sixteen pins, the fixed role each one plays in
//! this wiring, and the pin operations a display operation is compiled to.

use vstd::prelude::*;

verus! {

/// One of the sixteen individually addressable expander pins: eight on
/// port A and eight on port B.
#[derive(Clone, Copy, Debug, PartialEq, Eq, Structural)]
pub enum Pin {
    A0,
    A1,
    A2,
    A3,
    A4,
    A5,
    A6,
    A7,
    B0,
    B1,
    B2,
    B3,
    B4,
    B5,
    B6,
    B7,
}

/// Data flow direction a pin is configured for.
#[derive(Clone, Copy, Debug, PartialEq, Eq, Structural)]
pub enum Direction {
    Input,
    Output,
}

/// Logic level driven on an output pin.
#[derive(Clone, Copy, Debug, PartialEq, Eq, Structural)]
pub enum Level {
    Low,
    High,
}

/// Whether a pin's internal pull-up resistor is switched in.
#[derive(Clone, Copy, Debug, PartialEq, Eq, Structural)]
pub enum PullUp {
    Enabled,
    Disabled,
}

/// One elementary expander operation, or a mandatory settle delay.
///
/// Every display operation of this crate is compiled to a sequence of these;
/// an unverified shell performs them in order against the real expander and
/// sleeps for each `Wait`.
#[derive(Clone, Copy, Debug, PartialEq, Eq, Structural)]
pub enum PinOp {
    /// Configure a pin as input or output.
    SetDirection { pin: Pin, direction: Direction },
    /// Switch a pin's internal pull-up resistor.
    SetPullUp { pin: Pin, pull_up: PullUp },
    /// Drive an output pin to a logic level.
    SetLevel { pin: Pin, level: Level },
    /// Let the controller settle for at least this many microseconds.
    Wait { micros: u64 },
}

// Register select (RS): low for commands, high for character data.
pub const LCD_RS: Pin = Pin::B7;

// Enable (E): pulsed high-then-low to latch the presented nibble.
pub const LCD_E: Pin = Pin::B5;

// The four parallel data lines of the 4-bit interface.
pub const LCD_D4: Pin = Pin::B4;

pub const LCD_D5: Pin = Pin::B3;

pub const LCD_D6: Pin = Pin::B2;

pub const LCD_D7: Pin = Pin::B1;

// Read/write select, held permanently low: the driver only writes.
pub const LCD_RW: Pin = Pin::B6;

// RGB backlight LED drivers (common anode: low = channel on).
pub const RGB_RED: Pin = Pin::A6;

pub const RGB_GREEN: Pin = Pin::A7;

pub const RGB_BLUE: Pin = Pin::B0;

// Backlight switch pin; switched by reconfiguring its direction.
pub const LCD_BACKLIGHT: Pin = Pin::A5;

// Push-buttons, wired as inputs with pull-ups.
pub const BTN_LEFT: Pin = Pin::A4;

pub const BTN_UP: Pin = Pin::A3;

pub const BTN_DOWN: Pin = Pin::A2;

pub const BTN_RIGHT: Pin = Pin::A1;

pub const BTN_SELECT: Pin = Pin::A0;

} // verus!
