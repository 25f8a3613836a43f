//! The display driver: tracked logical state and the compilation of each
//! public operation into its pin-operation sequence.
//!
//! Every operation returns the exact sequence of expander pin operations
//! (including the mandatory settle delays) that the hardware requires, and
//! the contracts state that sequence in full, together with how the tracked
//! state changes.

use vstd::prelude::*;

use crate::error::LcdError;
use crate::pins::{Direction, Level, Pin, PinOp, PullUp, BTN_DOWN, BTN_LEFT, BTN_RIGHT,
    BTN_SELECT, BTN_UP, LCD_BACKLIGHT, LCD_D4, LCD_D5, LCD_D6, LCD_D7, LCD_E, LCD_RS, LCD_RW,
    RGB_BLUE, RGB_GREEN, RGB_RED};
use crate::protocol::{command_ops, emit_command, emit_write4bits, emit_write8, write4bits_ops,
    write8_ops, LCD_1LINE, LCD_2LINE, LCD_4BITMODE, LCD_5X8DOTS, LCD_BLINKOFF, LCD_CLEARDISPLAY,
    LCD_CURSOROFF, LCD_DISPLAYCONTROL, LCD_DISPLAYON, LCD_ENTRYLEFT, LCD_ENTRYMODESET,
    LCD_ENTRYSHIFTDECREMENT, LCD_FUNCTIONSET, LCD_RETURNHOME, LCD_SETDDRAMADDR};

verus! {

// Text entry directions, as stored in the `direction` field.
pub const LEFT_TO_RIGHT: usize = 0;

pub const RIGHT_TO_LEFT: usize = 1;

/// The row-offset table has four entries, one DDRAM base address per
/// physical row; a display can never claim more lines than that.
pub const MAX_LINES: usize = 4;

/// The largest geometry whose addresses stay within one byte: a clamped
/// column is at most `columns - 1`, the largest row offset is `0x54`, and
/// `171 + 0x54 == 255`.
pub const MAX_COLUMNS: usize = 172;

/// Mathematical model of the driver's tracked state.
#[verifier::ext_equal]
pub struct LcdState {
    /// Fixed geometry, set at construction.
    pub columns: int,
    pub lines: int,
    /// Logical write position tracked by the driver.
    pub row: int,
    pub column: int,
    /// Whether the backlight pin is currently driven as an output (LED on).
    pub backlight: bool,
    /// Last-set RGB intensity triple; acts only as an on/off latch.
    pub color_value: (u8, u8, u8),
    /// Mirrors of the controller's configuration registers.
    pub display_control: u8,
    pub display_mode: u8,
    pub display_function: u8,
    /// Whether a line break keeps the tracked column instead of the edge.
    pub column_align: bool,
    /// Stored entry direction; the entry-mode flags are what is consulted.
    pub direction: int,
    /// Most recent full text rendered; diagnostic only.
    pub message: Seq<char>,
}

/// Whether the entry-mode flags select left-to-right text entry.
pub open spec fn entry_left(mode: u8) -> bool {
    mode & LCD_ENTRYLEFT > 0
}

/// A geometry the driver accepts at construction.
pub open spec fn valid_geometry(columns: int, lines: int) -> bool {
    &&& 1 <= columns <= MAX_COLUMNS as int
    &&& 1 <= lines <= MAX_LINES as int
}

/// Well-formed driver state: a valid geometry, a tracked row inside it, and
/// left-to-right entry-mode flags (the one configuration this driver ever
/// writes to the controller). The tracked column may exceed the geometry
/// transiently; positioning clamps it before any write.
pub open spec fn wf(s: LcdState) -> bool {
    &&& valid_geometry(s.columns, s.lines)
    &&& 0 <= s.row < s.lines
    &&& 0 <= s.column
    &&& entry_left(s.display_mode)
}

/// DDRAM base address of each physical row, per the controller's layout.
pub open spec fn row_offset(row: int) -> u8 {
    if row == 0 {
        0x00
    } else if row == 1 {
        0x40
    } else if row == 2 {
        0x14
    } else {
        0x54
    }
}

/// The DDRAM address a cursor position maps to.
pub open spec fn ddram_address(column: int, row: int) -> int {
    column + row_offset(row)
}

/// The command sequence that moves the controller's address pointer.
pub open spec fn set_ddram_ops(column: int, row: int) -> Seq<PinOp>
    recommends
        0 <= ddram_address(column, row) <= 255,
{
    command_ops(LCD_SETDDRAMADDR | (ddram_address(column, row) as u8))
}

/// Clamp an index to `bound - 1` when it is out of range.
pub open spec fn clamp_to(v: int, bound: int) -> int {
    if v >= bound {
        bound - 1
    } else {
        v
    }
}

/// The ops of the lenient positioning path: clamp, then address.
pub open spec fn cursor_position_ops(columns: int, lines: int, column: int, row: int) -> Seq<
    PinOp,
> {
    set_ddram_ops(clamp_to(column, columns), clamp_to(row, lines))
}

/// Clear-display command plus its settle time, the slowest of the command
/// set.
pub open spec fn clear_ops() -> Seq<PinOp> {
    command_ops(LCD_CLEARDISPLAY) + seq![PinOp::Wait { micros: 3000 }]
}

/// Return-home command plus the same settle time.
pub open spec fn home_ops() -> Seq<PinOp> {
    command_ops(LCD_RETURNHOME) + seq![PinOp::Wait { micros: 3000 }]
}

/// The level an RGB channel pin takes for a requested intensity: any value
/// above 1 switches the channel on, which is the low level on this
/// common-anode wiring. There is no dimming.
pub open spec fn channel_level(value: u8) -> Level {
    if value > 1 {
        Level::Low
    } else {
        Level::High
    }
}

/// The three channel writes of a color change.
pub open spec fn set_color_ops(r: u8, g: u8, b: u8) -> Seq<PinOp> {
    seq![
        PinOp::SetLevel { pin: RGB_RED, level: channel_level(r) },
        PinOp::SetLevel { pin: RGB_GREEN, level: channel_level(g) },
        PinOp::SetLevel { pin: RGB_BLUE, level: channel_level(b) },
    ]
}

/// Switching the backlight reconfigures the pin's direction — an artifact
/// of the physical pull circuit — never a logic level.
pub open spec fn set_backlight_ops(on: bool) -> Seq<PinOp> {
    seq![
        PinOp::SetDirection {
            pin: LCD_BACKLIGHT,
            direction: if on {
                Direction::Output
            } else {
                Direction::Input
            },
        },
    ]
}

/// The data byte sent for one character: its scalar value, truncated to
/// the byte the controller's character generator receives.
pub open spec fn char_code(c: char) -> u8 {
    c as u8
}

/// The pin operations text rendering issues from the `i`th character on,
/// with `line` the logical line counter, `tcol` the tracked column (which
/// every positioning write updates to its clamped target), and `started`
/// whether the initial positioning write has been issued.
///
/// Before its first character the text is positioned at the tracked column
/// (left-to-right entry) or mirrored from the right edge (right-to-left
/// entry). Each newline advances the line counter and repositions: to the
/// tracked column when column alignment is on, else to the line's starting
/// edge. Every other character is one data byte write.
pub open spec fn message_ops_from(
    columns: int,
    lines: int,
    left: bool,
    align: bool,
    s: Seq<char>,
    i: int,
    line: int,
    tcol: int,
    started: bool,
) -> Seq<PinOp>
    decreases s.len() - i,
{
    if i < 0 || i >= s.len() {
        Seq::empty()
    } else {
        let c = s[i];
        let start_col = if left {
            tcol
        } else {
            columns - 1 - tcol
        };
        let pos = if !started {
            cursor_position_ops(columns, lines, start_col, line)
        } else {
            Seq::empty()
        };
        let tcol1 = if !started {
            clamp_to(start_col, columns)
        } else {
            tcol
        };
        if c == '\n' {
            let nl_col = if left {
                if align {
                    tcol1
                } else {
                    0
                }
            } else {
                if align {
                    tcol1
                } else {
                    columns - 1
                }
            };
            pos + cursor_position_ops(columns, lines, nl_col, line + 1) + message_ops_from(
                columns,
                lines,
                left,
                align,
                s,
                i + 1,
                line + 1,
                clamp_to(nl_col, columns),
                true,
            )
        } else {
            pos + write8_ops(char_code(c), true) + message_ops_from(
                columns,
                lines,
                left,
                align,
                s,
                i + 1,
                line,
                tcol1,
                true,
            )
        }
    }
}

/// The pin operations a whole text issues when rendering starts in state
/// `s0`.
pub open spec fn message_ops(s0: LcdState, text: Seq<char>) -> Seq<PinOp> {
    message_ops_from(
        s0.columns,
        s0.lines,
        entry_left(s0.display_mode),
        s0.column_align,
        text,
        0,
        s0.row,
        s0.column,
        false,
    )
}

/// Shorthand: configure a pin as an output.
pub open spec fn output_op(pin: Pin) -> PinOp {
    PinOp::SetDirection { pin, direction: Direction::Output }
}

/// Shorthand: configure a pin as an input.
pub open spec fn input_op(pin: Pin) -> PinOp {
    PinOp::SetDirection { pin, direction: Direction::Input }
}

/// Shorthand: switch a pin's pull-up resistor in.
pub open spec fn pull_up_op(pin: Pin) -> PinOp {
    PinOp::SetPullUp { pin, pull_up: PullUp::Enabled }
}

/// The fixed pin configuration this driver requires: the seven control and
/// data pins and the three RGB pins as outputs, the five button pins as
/// inputs with pull-ups.
pub open spec fn setup_pins_ops() -> Seq<PinOp> {
    seq![
        output_op(LCD_RS),
        output_op(LCD_E),
        output_op(LCD_D4),
        output_op(LCD_D5),
        output_op(LCD_D6),
        output_op(LCD_D7),
        output_op(LCD_RW),
        output_op(RGB_RED),
        output_op(RGB_GREEN),
        output_op(RGB_BLUE),
        input_op(BTN_LEFT),
        pull_up_op(BTN_LEFT),
        input_op(BTN_UP),
        pull_up_op(BTN_UP),
        input_op(BTN_DOWN),
        pull_up_op(BTN_DOWN),
        input_op(BTN_RIGHT),
        pull_up_op(BTN_RIGHT),
        input_op(BTN_SELECT),
        pull_up_op(BTN_SELECT),
    ]
}

/// The 4-bit-mode handshake: wait for power-on, hold register select,
/// enable and read/write low, then three identical "reset to 8-bit
/// interface" pulses spaced by the documented worst-case recovery times,
/// then the pulse that switches to the 4-bit interface, and a final settle.
pub open spec fn handshake_ops() -> Seq<PinOp> {
    seq![
        PinOp::Wait { micros: 50000 },
        PinOp::SetLevel { pin: LCD_RS, level: Level::Low },
        PinOp::SetLevel { pin: LCD_E, level: Level::Low },
        PinOp::SetLevel { pin: LCD_RW, level: Level::Low },
    ] + write4bits_ops(0x03) + seq![PinOp::Wait { micros: 5000 }] + write4bits_ops(0x03)
        + seq![PinOp::Wait { micros: 5000 }] + write4bits_ops(0x03)
        + seq![PinOp::Wait { micros: 1000 }] + write4bits_ops(0x02)
        + seq![PinOp::Wait { micros: 1000 }]
}

/// Everything issued after the handshake: the three configuration command
/// writes (display control, function set, entry mode), a clear, and all RGB
/// channels off.
pub open spec fn initialize_ops() -> Seq<PinOp> {
    handshake_ops() + command_ops(
        LCD_DISPLAYCONTROL | (LCD_DISPLAYON | LCD_CURSOROFF | LCD_BLINKOFF),
    ) + command_ops(LCD_FUNCTIONSET | (LCD_4BITMODE | LCD_1LINE | LCD_2LINE | LCD_5X8DOTS))
        + command_ops(LCD_ENTRYMODESET | (LCD_ENTRYLEFT | LCD_ENTRYSHIFTDECREMENT)) + clear_ops()
        + set_color_ops(0, 0, 0)
}

/// Everything construction issues, in order: pin setup, then the
/// initialization sequence.
pub open spec fn new_ops() -> Seq<PinOp> {
    setup_pins_ops() + initialize_ops()
}

/// The entry-mode flags written at initialization select left-to-right
/// entry.
pub proof fn lemma_initial_mode_entry_left()
    ensures
        entry_left(LCD_ENTRYLEFT | LCD_ENTRYSHIFTDECREMENT),
{
    assert((0x02u8 | 0x00u8) & 0x02u8 > 0) by (bit_vector);
}

/// The driver state construction establishes.
pub open spec fn initial_state(columns: int, lines: int) -> LcdState {
    LcdState {
        columns,
        lines,
        row: 0,
        column: 0,
        backlight: true,
        color_value: (0, 0, 0),
        display_control: LCD_DISPLAYON | LCD_CURSOROFF | LCD_BLINKOFF,
        display_mode: LCD_ENTRYLEFT | LCD_ENTRYSHIFTDECREMENT,
        display_function: LCD_4BITMODE | LCD_1LINE | LCD_2LINE | LCD_5X8DOTS,
        column_align: false,
        direction: LEFT_TO_RIGHT as int,
        message: Seq::empty(),
    }
}

/// The character LCD with RGB backlight, reached through the GPIO expander.
///
/// The struct tracks the logical display state; each operation returns the
/// pin-operation sequence it compiles to, for an unverified shell to
/// perform on the real expander.
pub struct CharLCDRGBI2C {
    columns: usize,
    lines: usize,
    backlight: bool,
    color_value: (u8, u8, u8),
    display_control: u8,
    display_mode: u8,
    display_function: u8,
    row: usize,
    column: usize,
    column_align: bool,
    message: String,
    direction: usize,
}

impl View for CharLCDRGBI2C {
    type V = LcdState;

    closed spec fn view(&self) -> LcdState {
        LcdState {
            columns: self.columns as int,
            lines: self.lines as int,
            row: self.row as int,
            column: self.column as int,
            backlight: self.backlight,
            color_value: self.color_value,
            display_control: self.display_control,
            display_mode: self.display_mode,
            display_function: self.display_function,
            column_align: self.column_align,
            direction: self.direction as int,
            message: self.message@,
        }
    }
}

/// The four-entry row-offset table, bounded by the configured line count.
fn row_offset_at(row: usize) -> (r: u8)
    requires
        row < MAX_LINES,
    ensures
        r == row_offset(row as int),
{
    if row == 0 {
        0x00
    } else if row == 1 {
        0x40
    } else if row == 2 {
        0x14
    } else {
        0x54
    }
}

impl CharLCDRGBI2C {
    /// Append the clamp-then-address write of the lenient positioning path
    /// and move the tracked cursor to the clamped position.
    fn emit_cursor_position(&mut self, ops: &mut Vec<PinOp>, column: usize, row: usize)
        requires
            wf(old(self)@),
        ensures
            wf(final(self)@),
            final(ops)@ == old(ops)@ + cursor_position_ops(
                old(self)@.columns,
                old(self)@.lines,
                column as int,
                row as int,
            ),
            final(self)@ == (LcdState {
                row: clamp_to(row as int, old(self)@.lines),
                column: clamp_to(column as int, old(self)@.columns),
                ..old(self)@
            }),
    {
        let mut column = column;
        let mut row = row;
        if row >= self.lines {
            row = self.lines - 1;
        }
        if column >= self.columns {
            column = self.columns - 1;
        }
        let address = column as u8 + row_offset_at(row);
        emit_command(ops, LCD_SETDDRAMADDR | address);
        self.row = row;
        self.column = column;
    }

    /// Append the clear-display command and its settle time, and reset the
    /// tracked cursor to the origin.
    fn emit_clear(&mut self, ops: &mut Vec<PinOp>)
        ensures
            final(ops)@ == old(ops)@ + clear_ops(),
            final(self)@ == (LcdState { row: 0, column: 0, ..old(self)@ }),
    {
        emit_command(ops, LCD_CLEARDISPLAY);
        ops.push(PinOp::Wait { micros: 3000 });
        self.row = 0;
        self.column = 0;
        assert(final(ops)@ =~= old(ops)@ + clear_ops());
    }

    /// Append the three channel writes of a color change and latch the
    /// requested triple.
    fn emit_set_color(&mut self, ops: &mut Vec<PinOp>, r: u8, g: u8, b: u8)
        ensures
            final(ops)@ == old(ops)@ + set_color_ops(r, g, b),
            final(self)@ == (LcdState { color_value: (r, g, b), ..old(self)@ }),
    {
        ops.push(PinOp::SetLevel {
            pin: RGB_RED,
            level: if r > 1 { Level::Low } else { Level::High },
        });
        ops.push(PinOp::SetLevel {
            pin: RGB_GREEN,
            level: if g > 1 { Level::Low } else { Level::High },
        });
        ops.push(PinOp::SetLevel {
            pin: RGB_BLUE,
            level: if b > 1 { Level::Low } else { Level::High },
        });
        self.color_value = (r, g, b);
        assert(final(ops)@ =~= old(ops)@ + set_color_ops(r, g, b));
    }

    /// Clear the display. Always succeeds: exactly one command write
    /// followed by the 3 ms settle, and the tracked cursor returns to the
    /// origin, regardless of prior state.
    pub fn clear(&mut self) -> (r: Result<Vec<PinOp>, LcdError>)
        requires
            wf(old(self)@),
        ensures
            wf(final(self)@),
            r matches Ok(ops) && ops@ == clear_ops(),
            final(self)@ == (LcdState { row: 0, column: 0, ..old(self)@ }),
    {
        let mut ops: Vec<PinOp> = Vec::new();
        self.emit_clear(&mut ops);
        Ok(ops)
    }

    /// Return the cursor home. Always succeeds: one command write plus its
    /// settle time, and the tracked cursor returns to the origin.
    pub fn home(&mut self) -> (r: Result<Vec<PinOp>, LcdError>)
        requires
            wf(old(self)@),
        ensures
            wf(final(self)@),
            r matches Ok(ops) && ops@ == home_ops(),
            final(self)@ == (LcdState { row: 0, column: 0, ..old(self)@ }),
    {
        let mut ops: Vec<PinOp> = Vec::new();
        emit_command(&mut ops, LCD_RETURNHOME);
        ops.push(PinOp::Wait { micros: 3000 });
        self.row = 0;
        self.column = 0;
        assert(ops@ =~= home_ops());
        Ok(ops)
    }

    /// Set the RGB backlight color. Always succeeds; each channel is
    /// thresholded, not dimmed: the pin levels depend only on whether each
    /// intensity is above 1.
    pub fn set_color(&mut self, r: u8, g: u8, b: u8) -> (res: Result<Vec<PinOp>, LcdError>)
        requires
            wf(old(self)@),
        ensures
            wf(final(self)@),
            res matches Ok(ops) && ops@ == set_color_ops(r, g, b),
            final(self)@ == (LcdState { color_value: (r, g, b), ..old(self)@ }),
    {
        let mut ops: Vec<PinOp> = Vec::new();
        self.emit_set_color(&mut ops, r, g, b);
        Ok(ops)
    }

    /// Move the cursor, strictly: a row outside the configured geometry is
    /// rejected with a validation error and nothing is written; a valid row
    /// issues exactly the address write for `column + row offset` and moves
    /// the tracked cursor there.
    pub fn set_cursor(&mut self, col: usize, row: usize) -> (r: Result<Vec<PinOp>, LcdError>)
        requires
            wf(old(self)@),
            row < old(self)@.lines ==> ddram_address(col as int, row as int) <= 255,
        ensures
            wf(final(self)@),
            row < old(self)@.lines ==> (r matches Ok(ops) && ops@ == set_ddram_ops(
                col as int,
                row as int,
            ) && final(self)@ == (LcdState { row: row as int, column: col as int, ..old(self)@ })),
            row >= old(self)@.lines ==> (r matches Err(e) && e is Other && final(self)@ == old(
                self,
            )@),
    {
        if row >= self.lines {
            return Err(LcdError::Other("row index is outside the configured lines".to_owned()));
        }
        let mut ops: Vec<PinOp> = Vec::new();
        let address = col as u8 + row_offset_at(row);
        emit_command(&mut ops, LCD_SETDDRAMADDR | address);
        self.row = row;
        self.column = col;
        Ok(ops)
    }

    /// Move the cursor, leniently: never fails; an out-of-range column or
    /// row is clamped to the last column or line before the address write.
    pub fn cursor_position(&mut self, column: usize, row: usize) -> (r: Result<
        Vec<PinOp>,
        LcdError,
    >)
        requires
            wf(old(self)@),
        ensures
            wf(final(self)@),
            r matches Ok(ops) && ops@ == cursor_position_ops(
                old(self)@.columns,
                old(self)@.lines,
                column as int,
                row as int,
            ),
            final(self)@ == (LcdState {
                row: clamp_to(row as int, old(self)@.lines),
                column: clamp_to(column as int, old(self)@.columns),
                ..old(self)@
            }),
    {
        let mut ops: Vec<PinOp> = Vec::new();
        self.emit_cursor_position(&mut ops, column, row);
        Ok(ops)
    }

    /// Switch the backlight by reconfiguring the pin's direction — driving
    /// it as an output lights the LED, releasing it to an input lets the
    /// external pull network turn it off. Always succeeds and tracks the
    /// requested state.
    pub fn set_backlight(&mut self, on: bool) -> (r: Result<Vec<PinOp>, LcdError>)
        requires
            wf(old(self)@),
        ensures
            wf(final(self)@),
            r matches Ok(ops) && ops@ == set_backlight_ops(on),
            final(self)@ == (LcdState { backlight: on, ..old(self)@ }),
    {
        let mut ops: Vec<PinOp> = Vec::new();
        if on {
            ops.push(PinOp::SetDirection { pin: LCD_BACKLIGHT, direction: Direction::Output });
            self.backlight = true;
        } else {
            ops.push(PinOp::SetDirection { pin: LCD_BACKLIGHT, direction: Direction::Input });
            self.backlight = false;
        }
        assert(ops@ =~= set_backlight_ops(on));
        Ok(ops)
    }

    /// Append the fixed pin configuration: LCD control and data pins and
    /// RGB pins as outputs, button pins as inputs with pull-ups.
    fn setup_pins(ops: &mut Vec<PinOp>)
        ensures
            final(ops)@ == old(ops)@ + setup_pins_ops(),
    {
        ops.push(PinOp::SetDirection { pin: LCD_RS, direction: Direction::Output });
        ops.push(PinOp::SetDirection { pin: LCD_E, direction: Direction::Output });
        ops.push(PinOp::SetDirection { pin: LCD_D4, direction: Direction::Output });
        ops.push(PinOp::SetDirection { pin: LCD_D5, direction: Direction::Output });
        ops.push(PinOp::SetDirection { pin: LCD_D6, direction: Direction::Output });
        ops.push(PinOp::SetDirection { pin: LCD_D7, direction: Direction::Output });
        ops.push(PinOp::SetDirection { pin: LCD_RW, direction: Direction::Output });
        ops.push(PinOp::SetDirection { pin: RGB_RED, direction: Direction::Output });
        ops.push(PinOp::SetDirection { pin: RGB_GREEN, direction: Direction::Output });
        ops.push(PinOp::SetDirection { pin: RGB_BLUE, direction: Direction::Output });
        ops.push(PinOp::SetDirection { pin: BTN_LEFT, direction: Direction::Input });
        ops.push(PinOp::SetPullUp { pin: BTN_LEFT, pull_up: PullUp::Enabled });
        ops.push(PinOp::SetDirection { pin: BTN_UP, direction: Direction::Input });
        ops.push(PinOp::SetPullUp { pin: BTN_UP, pull_up: PullUp::Enabled });
        ops.push(PinOp::SetDirection { pin: BTN_DOWN, direction: Direction::Input });
        ops.push(PinOp::SetPullUp { pin: BTN_DOWN, pull_up: PullUp::Enabled });
        ops.push(PinOp::SetDirection { pin: BTN_RIGHT, direction: Direction::Input });
        ops.push(PinOp::SetPullUp { pin: BTN_RIGHT, pull_up: PullUp::Enabled });
        ops.push(PinOp::SetDirection { pin: BTN_SELECT, direction: Direction::Input });
        ops.push(PinOp::SetPullUp { pin: BTN_SELECT, pull_up: PullUp::Enabled });
        assert(final(ops)@ =~= old(ops)@ + setup_pins_ops());
    }

    /// Append the fixed initialization sequence — handshake, the three
    /// configuration command writes, a clear, all RGB channels off — and
    /// establish the configuration flags and origin tracking.
    #[verifier::rlimit(60)]
    fn initialize(&mut self, ops: &mut Vec<PinOp>)
        ensures
            final(ops)@ == old(ops)@ + initialize_ops(),
            final(self)@ == (LcdState {
                row: 0,
                column: 0,
                color_value: (0, 0, 0),
                display_control: LCD_DISPLAYON | LCD_CURSOROFF | LCD_BLINKOFF,
                display_mode: LCD_ENTRYLEFT | LCD_ENTRYSHIFTDECREMENT,
                display_function: LCD_4BITMODE | LCD_1LINE | LCD_2LINE | LCD_5X8DOTS,
                column_align: false,
                direction: LEFT_TO_RIGHT as int,
                message: Seq::empty(),
                ..old(self)@
            }),
    {
        // Wait for the controller to be ready after power-on.
        ops.push(PinOp::Wait { micros: 50000 });
        // Pull register select low to begin commands; read/write stays low.
        ops.push(PinOp::SetLevel { pin: LCD_RS, level: Level::Low });
        ops.push(PinOp::SetLevel { pin: LCD_E, level: Level::Low });
        ops.push(PinOp::SetLevel { pin: LCD_RW, level: Level::Low });
        // Three "reset to 8-bit interface" pulses, then the 4-bit switch.
        emit_write4bits(ops, 0x03);
        ops.push(PinOp::Wait { micros: 5000 });
        emit_write4bits(ops, 0x03);
        ops.push(PinOp::Wait { micros: 5000 });
        emit_write4bits(ops, 0x03);
        ops.push(PinOp::Wait { micros: 1000 });
        emit_write4bits(ops, 0x02);
        ops.push(PinOp::Wait { micros: 1000 });
        assert(ops@ =~= old(ops)@ + handshake_ops());
        self.display_control = LCD_DISPLAYON | LCD_CURSOROFF | LCD_BLINKOFF;
        self.display_function = LCD_4BITMODE | LCD_1LINE | LCD_2LINE | LCD_5X8DOTS;
        self.display_mode = LCD_ENTRYLEFT | LCD_ENTRYSHIFTDECREMENT;
        emit_command(ops, LCD_DISPLAYCONTROL | self.display_control);
        emit_command(ops, LCD_FUNCTIONSET | self.display_function);
        emit_command(ops, LCD_ENTRYMODESET | self.display_mode);
        self.emit_clear(ops);
        self.row = 0;
        self.column = 0;
        self.column_align = false;
        self.direction = LEFT_TO_RIGHT;
        self.message = String::new();
        self.emit_set_color(ops, 0, 0, 0);
        assert(final(ops)@ =~= old(ops)@ + initialize_ops());
    }

    /// Construct a driver for the given geometry and compile everything
    /// construction issues: pin setup, then the initialization sequence,
    /// in that fixed order. A geometry outside the row-offset table's
    /// four lines, or whose addresses would not fit the controller's
    /// one-byte address space, is rejected with a validation error.
    pub fn new(columns: usize, lines: usize) -> (r: Result<(CharLCDRGBI2C, Vec<PinOp>), LcdError>)
        ensures
            valid_geometry(columns as int, lines as int) ==> (r matches Ok(p) && p.0@
                == initial_state(columns as int, lines as int) && wf(p.0@) && p.1@ == new_ops()),
            !valid_geometry(columns as int, lines as int) ==> (r matches Err(e) && e is Other),
    {
        if columns < 1 || columns > MAX_COLUMNS || lines < 1 || lines > MAX_LINES {
            return Err(
                LcdError::Other("geometry is outside what this driver can address".to_owned()),
            );
        }
        let mut lcd = CharLCDRGBI2C {
            columns,
            lines,
            backlight: true,
            color_value: (0, 0, 0),
            display_control: 0,
            display_mode: 0,
            display_function: 0,
            row: 0,
            column: 0,
            column_align: false,
            message: String::new(),
            direction: LEFT_TO_RIGHT,
        };
        let mut ops: Vec<PinOp> = Vec::new();
        Self::setup_pins(&mut ops);
        lcd.initialize(&mut ops);
        proof {
            lemma_initial_mode_entry_left();
        }
        assert(lcd@ =~= initial_state(columns as int, lines as int));
        assert(ops@ =~= new_ops());
        Ok((lcd, ops))
    }

    /// Render a text starting at the tracked row, honoring embedded
    /// newlines as explicit line breaks; the compiled sequence is
    /// `message_ops` of the prior state. Always succeeds; afterwards the
    /// tracked cursor is reset to the origin regardless of where the text
    /// ended, and the text is retained.
    pub fn message(&mut self, message: &str) -> (r: Result<Vec<PinOp>, LcdError>)
        requires
            wf(old(self)@),
            message@.len() + MAX_LINES as int <= usize::MAX,
        ensures
            wf(final(self)@),
            r matches Ok(ops) && ops@ == message_ops(old(self)@, message@),
            final(self)@ == (LcdState { row: 0, column: 0, message: message@, ..old(self)@ }),
    {
        let ghost s0 = old(self)@;
        self.message = message.to_owned();
        let n = message.unicode_len();
        let mut ops: Vec<PinOp> = Vec::new();
        let mut line: usize = self.row;
        let mut started: bool = false;
        let mut i: usize = 0;
        while i < n
            invariant
                wf(s0),
                wf(self@),
                n == message@.len(),
                n + MAX_LINES as int <= usize::MAX,
                i <= n,
                self@ == (LcdState {
                    row: self@.row,
                    column: self@.column,
                    message: message@,
                    ..s0
                }),
                line as int <= s0.row + i,
                !started ==> i == 0 && line as int == s0.row && self@.column == s0.column
                    && self@.row == s0.row,
                ops@ + message_ops_from(
                    s0.columns,
                    s0.lines,
                    entry_left(s0.display_mode),
                    s0.column_align,
                    message@,
                    i as int,
                    line as int,
                    self@.column,
                    started,
                ) == message_ops(s0, message@),
            decreases n - i,
        {
            let c = message.get_char(i);
            let ghost pre_ops = ops@;
            let ghost pre_col = self@.column;
            let ghost pre_line = line as int;
            let ghost pre_started = started;
            if !started {
                let col = if self.display_mode & LCD_ENTRYLEFT > 0 {
                    self.column
                } else {
                    self.columns - 1 - self.column
                };
                self.emit_cursor_position(&mut ops, col, line);
                started = true;
            }
            if c == '\n' {
                line = line + 1;
                let col = if self.display_mode & LCD_ENTRYLEFT > 0 {
                    if self.column_align {
                        self.column
                    } else {
                        0
                    }
                } else {
                    if self.column_align {
                        self.column
                    } else {
                        self.columns - 1
                    }
                };
                self.emit_cursor_position(&mut ops, col, line);
            } else {
                emit_write8(&mut ops, #[verifier::truncate] (c as u8), true);
            }
            proof {
                broadcast use vstd::seq_lib::group_seq_properties;

                let cols = s0.columns;
                let lns = s0.lines;
                let left = entry_left(s0.display_mode);
                let al = s0.column_align;
                let s = message@;
                let cc = s[i as int];
                let start_col = if left {
                    pre_col
                } else {
                    cols - 1 - pre_col
                };
                let pos = if !pre_started {
                    cursor_position_ops(cols, lns, start_col, pre_line)
                } else {
                    Seq::<PinOp>::empty()
                };
                let tcol1 = if !pre_started {
                    clamp_to(start_col, cols)
                } else {
                    pre_col
                };
                let step = if cc == '\n' {
                    let nl_col = if left {
                        if al {
                            tcol1
                        } else {
                            0
                        }
                    } else {
                        if al {
                            tcol1
                        } else {
                            cols - 1
                        }
                    };
                    cursor_position_ops(cols, lns, nl_col, pre_line + 1)
                } else {
                    write8_ops(char_code(cc), true)
                };
                let rest = message_ops_from(
                    cols,
                    lns,
                    left,
                    al,
                    s,
                    i + 1,
                    line as int,
                    self@.column,
                    started,
                );
                assert(ops@ == (pre_ops + pos) + step);
                assert(message_ops_from(cols, lns, left, al, s, i as int, pre_line, pre_col,
                    pre_started) == (pos + step) + rest);
                vstd::seq_lib::lemma_concat_associative(pre_ops + pos, step, rest);
                vstd::seq_lib::lemma_concat_associative(pre_ops, pos, step + rest);
                vstd::seq_lib::lemma_concat_associative(pos, step, rest);
                assert(ops@ + rest == pre_ops + message_ops_from(
                    cols,
                    lns,
                    left,
                    al,
                    s,
                    i as int,
                    pre_line,
                    pre_col,
                    pre_started,
                ));
            }
            i = i + 1;
        }
        self.column = 0;
        self.row = 0;
        proof {
            assert(ops@ =~= message_ops(s0, message@));
            assert(self@ =~= (LcdState { row: 0, column: 0, message: message@, ..s0 }));
        }
        Ok(ops)
    }

    /// The cursor position the driver currently tracks, as
    /// `(column, row)`.
    pub fn tracked_cursor(&self) -> (r: (usize, usize))
        ensures
            r.0 as int == self@.column,
            r.1 as int == self@.row,
    {
        (self.column, self.row)
    }

    /// Whether the driver currently tracks the backlight as on.
    pub fn backlight_on(&self) -> (r: bool)
        ensures
            r == self@.backlight,
    {
        self.backlight
    }

    /// The most recent full text rendered, retained for diagnostics.
    pub fn last_message(&self) -> (r: &str)
        ensures
            r@ == self@.message,
    {
        self.message.as_str()
    }
}

} // verus!
