//! Checks on the exact pin-operation sequences the driver compiles to.

use char_lcd_rgb_i2c::driver::CharLCDRGBI2C;
use char_lcd_rgb_i2c::pins::{Direction, Level, Pin, PinOp, PullUp, BTN_DOWN, BTN_LEFT, BTN_RIGHT,
    BTN_SELECT, BTN_UP, LCD_BACKLIGHT, LCD_D4, LCD_D5, LCD_D6, LCD_D7, LCD_E, LCD_RS, LCD_RW,
    RGB_BLUE, RGB_GREEN, RGB_RED};

fn level(pin: Pin, high: bool) -> PinOp {
    PinOp::SetLevel { pin, level: if high { Level::High } else { Level::Low } }
}

fn wait(micros: u64) -> PinOp {
    PinOp::Wait { micros }
}

fn output(pin: Pin) -> PinOp {
    PinOp::SetDirection { pin, direction: Direction::Output }
}

fn input(pin: Pin) -> PinOp {
    PinOp::SetDirection { pin, direction: Direction::Input }
}

fn pull_up(pin: Pin) -> PinOp {
    PinOp::SetPullUp { pin, pull_up: PullUp::Enabled }
}

fn push_write4bits(v: &mut Vec<PinOp>, value: u8) {
    v.push(level(LCD_D4, value & 0x01 > 0));
    v.push(level(LCD_D5, value & 0x02 > 0));
    v.push(level(LCD_D6, value & 0x04 > 0));
    v.push(level(LCD_D7, value & 0x08 > 0));
    v.push(level(LCD_E, false));
    v.push(wait(1));
    v.push(level(LCD_E, true));
    v.push(wait(1));
    v.push(level(LCD_E, false));
    v.push(wait(100));
}

fn push_write8(v: &mut Vec<PinOp>, value: u8, char_mode: bool) {
    v.push(level(LCD_RS, char_mode));
    push_write4bits(v, value >> 4);
    push_write4bits(v, value & 0x0F);
}

fn push_command(v: &mut Vec<PinOp>, value: u8) {
    push_write8(v, value, false);
}

fn expected_new_ops() -> Vec<PinOp> {
    let mut v = Vec::new();
    // Pin setup: control and data pins, RGB pins, button pins.
    for pin in [LCD_RS, LCD_E, LCD_D4, LCD_D5, LCD_D6, LCD_D7, LCD_RW] {
        v.push(output(pin));
    }
    for pin in [RGB_RED, RGB_GREEN, RGB_BLUE] {
        v.push(output(pin));
    }
    for pin in [BTN_LEFT, BTN_UP, BTN_DOWN, BTN_RIGHT, BTN_SELECT] {
        v.push(input(pin));
        v.push(pull_up(pin));
    }
    // Power-on wait, then command levels.
    v.push(wait(50000));
    v.push(level(LCD_RS, false));
    v.push(level(LCD_E, false));
    v.push(level(LCD_RW, false));
    // Three-pulse reset handshake plus the 4-bit mode switch.
    push_write4bits(&mut v, 0x03);
    v.push(wait(5000));
    push_write4bits(&mut v, 0x03);
    v.push(wait(5000));
    push_write4bits(&mut v, 0x03);
    v.push(wait(1000));
    push_write4bits(&mut v, 0x02);
    v.push(wait(1000));
    // Display control: display on, cursor off, blink off.
    push_command(&mut v, 0x08 | 0x04);
    // Function set: 4-bit, both line flags, 5x8 font.
    push_command(&mut v, 0x20 | 0x08);
    // Entry mode: left-to-right, no shift.
    push_command(&mut v, 0x04 | 0x02);
    // Clear display and settle.
    push_command(&mut v, 0x01);
    v.push(wait(3000));
    // All RGB channels off (high = off on common-anode wiring).
    v.push(level(RGB_RED, true));
    v.push(level(RGB_GREEN, true));
    v.push(level(RGB_BLUE, true));
    v
}

#[test]
fn construction_issues_the_fixed_initialization_sequence() {
    let (_, ops) = CharLCDRGBI2C::new(16, 2).unwrap();
    assert_eq!(ops, expected_new_ops());
}

#[test]
fn construction_sequence_does_not_depend_on_geometry() {
    let (_, ops_small) = CharLCDRGBI2C::new(16, 2).unwrap();
    let (_, ops_large) = CharLCDRGBI2C::new(20, 4).unwrap();
    assert_eq!(ops_small, ops_large);
}

#[test]
fn set_cursor_issues_the_address_write_for_each_row() {
    let (mut lcd, _) = CharLCDRGBI2C::new(20, 4).unwrap();
    let offsets: [u8; 4] = [0x00, 0x40, 0x14, 0x54];
    for (row, offset) in offsets.iter().enumerate() {
        let ops = lcd.set_cursor(3, row).unwrap();
        let mut expected = Vec::new();
        push_command(&mut expected, 0x80 | (3 + offset));
        assert_eq!(ops, expected);
    }
}

#[test]
fn cursor_position_clamps_column_and_row_before_writing() {
    let (mut lcd, _) = CharLCDRGBI2C::new(16, 2).unwrap();
    let ops = lcd.cursor_position(99, 7).unwrap();
    let mut expected = Vec::new();
    push_command(&mut expected, 0x80 | (15 + 0x40));
    assert_eq!(ops, expected);
    assert_eq!(lcd.tracked_cursor(), (15, 1));
}

#[test]
fn clear_issues_one_command_write_and_the_settle_wait() {
    let (mut lcd, _) = CharLCDRGBI2C::new(16, 2).unwrap();
    lcd.set_cursor(7, 1).unwrap();
    let ops = lcd.clear().unwrap();
    let mut expected = Vec::new();
    push_command(&mut expected, 0x01);
    expected.push(wait(3000));
    assert_eq!(ops, expected);
    assert_eq!(lcd.tracked_cursor(), (0, 0));
}

#[test]
fn home_issues_one_command_write_and_the_settle_wait() {
    let (mut lcd, _) = CharLCDRGBI2C::new(16, 2).unwrap();
    lcd.set_cursor(5, 1).unwrap();
    let ops = lcd.home().unwrap();
    let mut expected = Vec::new();
    push_command(&mut expected, 0x02);
    expected.push(wait(3000));
    assert_eq!(ops, expected);
    assert_eq!(lcd.tracked_cursor(), (0, 0));
}

#[test]
fn set_color_is_thresholded_not_dimmed() {
    let (mut lcd, _) = CharLCDRGBI2C::new(16, 2).unwrap();
    let low = lcd.set_color(2, 0, 2).unwrap();
    let full = lcd.set_color(100, 0, 100).unwrap();
    assert_eq!(low, full);
    // Red on (low), green off (high), blue on (low).
    assert_eq!(
        low,
        vec![level(RGB_RED, false), level(RGB_GREEN, true), level(RGB_BLUE, false)]
    );
}

#[test]
fn set_color_treats_one_as_off() {
    let (mut lcd, _) = CharLCDRGBI2C::new(16, 2).unwrap();
    let ops = lcd.set_color(1, 1, 1).unwrap();
    assert_eq!(
        ops,
        vec![level(RGB_RED, true), level(RGB_GREEN, true), level(RGB_BLUE, true)]
    );
}

#[test]
fn set_backlight_reconfigures_direction_each_call() {
    let (mut lcd, _) = CharLCDRGBI2C::new(16, 2).unwrap();
    let on_ops = lcd.set_backlight(true).unwrap();
    assert_eq!(on_ops, vec![output(LCD_BACKLIGHT)]);
    let off_ops = lcd.set_backlight(false).unwrap();
    assert_eq!(off_ops, vec![input(LCD_BACKLIGHT)]);
    assert!(!lcd.backlight_on());
}

#[test]
fn message_positions_each_line_around_an_embedded_newline() {
    let (mut lcd, _) = CharLCDRGBI2C::new(16, 2).unwrap();
    let ops = lcd.message("Hi\nBye").unwrap();
    let mut expected = Vec::new();
    // Position at (0, 0) for "Hi".
    push_command(&mut expected, 0x80);
    push_write8(&mut expected, b'H', true);
    push_write8(&mut expected, b'i', true);
    // The newline repositions to (0, 1).
    push_command(&mut expected, 0x80 | 0x40);
    push_write8(&mut expected, b'B', true);
    push_write8(&mut expected, b'y', true);
    push_write8(&mut expected, b'e', true);
    assert_eq!(ops, expected);
}

#[test]
fn message_starts_at_the_tracked_column() {
    let (mut lcd, _) = CharLCDRGBI2C::new(16, 2).unwrap();
    lcd.set_cursor(3, 1).unwrap();
    let ops = lcd.message("A").unwrap();
    let mut expected = Vec::new();
    push_command(&mut expected, 0x80 | (3 + 0x40));
    push_write8(&mut expected, b'A', true);
    assert_eq!(ops, expected);
}

#[test]
fn message_clamps_lines_past_the_bottom() {
    let (mut lcd, _) = CharLCDRGBI2C::new(16, 2).unwrap();
    let ops = lcd.message("a\nb\nc").unwrap();
    let mut expected = Vec::new();
    push_command(&mut expected, 0x80);
    push_write8(&mut expected, b'a', true);
    push_command(&mut expected, 0x80 | 0x40);
    push_write8(&mut expected, b'b', true);
    // A third line does not exist on a two-line display: clamped to row 1.
    push_command(&mut expected, 0x80 | 0x40);
    push_write8(&mut expected, b'c', true);
    assert_eq!(ops, expected);
}

#[test]
fn empty_message_issues_nothing() {
    let (mut lcd, _) = CharLCDRGBI2C::new(16, 2).unwrap();
    let ops = lcd.message("").unwrap();
    assert!(ops.is_empty());
}
