//! Driver core for an HD44780-compatible character LCD with an RGB backlight,
//! wired behind a 16-pin GPIO expander on a two-wire serial bus.
//!
//! The library is the protocol translation: every high-level operation
//! (print text, move the cursor, set the color, toggle the backlight) is
//! turned into the exact sequence of expander pin operations and settle
//! delays that the display hardware requires. The sequences are returned as
//! plain data ([`pins::PinOp`]) so that their shape and order are stated in
//! contracts and checked; a thin unverified shell performs them on the real
//! expander.

pub mod driver;
pub mod error;
pub mod laws;
pub mod pins;
pub mod protocol;
