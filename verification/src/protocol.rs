//! The controller's command set and the 4-bit write path.
//!
//! Spec functions give the exact pin-operation sequence of each primitive
//! (enable pulse, nibble write, byte write, command write); the exec
//! functions append that sequence to an operation buffer and are proved to
//! emit it exactly.

use vstd::prelude::*;

use crate::pins::{Level, PinOp, LCD_D4, LCD_D5, LCD_D6, LCD_D7, LCD_E, LCD_RS};

verus! {

// Controller commands.
pub const LCD_CLEARDISPLAY: u8 = 0x01;

pub const LCD_RETURNHOME: u8 = 0x02;

pub const LCD_ENTRYMODESET: u8 = 0x04;

pub const LCD_DISPLAYCONTROL: u8 = 0x08;

pub const LCD_FUNCTIONSET: u8 = 0x20;

pub const LCD_SETDDRAMADDR: u8 = 0x80;

// Entry-mode flags.
pub const LCD_ENTRYLEFT: u8 = 0x02;

pub const LCD_ENTRYSHIFTDECREMENT: u8 = 0x00;

// Display-control flags.
pub const LCD_DISPLAYON: u8 = 0x04;

pub const LCD_CURSOROFF: u8 = 0x00;

pub const LCD_BLINKOFF: u8 = 0x00;

// Function-set flags.
pub const LCD_4BITMODE: u8 = 0x00;

pub const LCD_2LINE: u8 = 0x08;

pub const LCD_1LINE: u8 = 0x00;

pub const LCD_5X8DOTS: u8 = 0x00;

/// The level a data line takes for one bit of a nibble.
pub open spec fn level_for(bit: bool) -> Level {
    if bit {
        Level::High
    } else {
        Level::Low
    }
}

/// The enable pulse: drop enable, raise it, drop it again, with the settle
/// delays the controller needs around each edge and after latching.
pub open spec fn pulse_enable_ops() -> Seq<PinOp> {
    seq![
        PinOp::SetLevel { pin: LCD_E, level: Level::Low },
        PinOp::Wait { micros: 1 },
        PinOp::SetLevel { pin: LCD_E, level: Level::High },
        PinOp::Wait { micros: 1 },
        PinOp::SetLevel { pin: LCD_E, level: Level::Low },
        PinOp::Wait { micros: 100 },
    ]
}

/// Present the low four bits of `value` on the data lines, then latch them
/// with an enable pulse.
pub open spec fn write4bits_ops(value: u8) -> Seq<PinOp> {
    seq![
        PinOp::SetLevel { pin: LCD_D4, level: level_for(value & 0x01 > 0) },
        PinOp::SetLevel { pin: LCD_D5, level: level_for(value & 0x02 > 0) },
        PinOp::SetLevel { pin: LCD_D6, level: level_for(value & 0x04 > 0) },
        PinOp::SetLevel { pin: LCD_D7, level: level_for(value & 0x08 > 0) },
    ] + pulse_enable_ops()
}

/// A full byte write: register select set for data (`char_mode`) or command,
/// then the high nibble, then the low nibble. The nibble order is mandatory.
pub open spec fn write8_ops(value: u8, char_mode: bool) -> Seq<PinOp> {
    seq![PinOp::SetLevel { pin: LCD_RS, level: level_for(char_mode) }] + write4bits_ops(
        value >> 4,
    ) + write4bits_ops(value & 0x0F)
}

/// A command write: a byte write with register select low.
pub open spec fn command_ops(value: u8) -> Seq<PinOp> {
    write8_ops(value, false)
}

/// Append the enable pulse to `ops`.
pub(crate) fn emit_pulse_enable(ops: &mut Vec<PinOp>)
    ensures
        final(ops)@ == old(ops)@ + pulse_enable_ops(),
{
    ops.push(PinOp::SetLevel { pin: LCD_E, level: Level::Low });
    ops.push(PinOp::Wait { micros: 1 });
    ops.push(PinOp::SetLevel { pin: LCD_E, level: Level::High });
    ops.push(PinOp::Wait { micros: 1 });
    ops.push(PinOp::SetLevel { pin: LCD_E, level: Level::Low });
    ops.push(PinOp::Wait { micros: 100 });
    assert(final(ops)@ =~= old(ops)@ + pulse_enable_ops());
}

/// Append a nibble write (data lines, then enable pulse) to `ops`.
pub(crate) fn emit_write4bits(ops: &mut Vec<PinOp>, value: u8)
    ensures
        final(ops)@ == old(ops)@ + write4bits_ops(value),
{
    ops.push(PinOp::SetLevel {
        pin: LCD_D4,
        level: if value & 0x01 > 0 { Level::High } else { Level::Low },
    });
    ops.push(PinOp::SetLevel {
        pin: LCD_D5,
        level: if value & 0x02 > 0 { Level::High } else { Level::Low },
    });
    ops.push(PinOp::SetLevel {
        pin: LCD_D6,
        level: if value & 0x04 > 0 { Level::High } else { Level::Low },
    });
    ops.push(PinOp::SetLevel {
        pin: LCD_D7,
        level: if value & 0x08 > 0 { Level::High } else { Level::Low },
    });
    emit_pulse_enable(ops);
    assert(final(ops)@ =~= old(ops)@ + write4bits_ops(value));
}

/// Append a byte write (register select, high nibble, low nibble) to `ops`.
pub(crate) fn emit_write8(ops: &mut Vec<PinOp>, value: u8, char_mode: bool)
    ensures
        final(ops)@ == old(ops)@ + write8_ops(value, char_mode),
{
    ops.push(PinOp::SetLevel {
        pin: LCD_RS,
        level: if char_mode { Level::High } else { Level::Low },
    });
    emit_write4bits(ops, value >> 4);
    emit_write4bits(ops, value & 0x0F);
    assert(final(ops)@ =~= old(ops)@ + write8_ops(value, char_mode));
}

/// Append a command write to `ops`.
pub(crate) fn emit_command(ops: &mut Vec<PinOp>, value: u8)
    ensures
        final(ops)@ == old(ops)@ + command_ops(value),
{
    emit_write8(ops, value, false);
}

} // verus!
