//! Checks on the driver's tracked state and on argument validation.

use char_lcd_rgb_i2c::driver::CharLCDRGBI2C;
use char_lcd_rgb_i2c::error::LcdError;

#[test]
fn set_cursor_updates_the_tracked_cursor() {
    let (mut lcd, _) = CharLCDRGBI2C::new(16, 2).unwrap();
    lcd.set_cursor(7, 1).unwrap();
    assert_eq!(lcd.tracked_cursor(), (7, 1));
}

#[test]
fn set_cursor_rejects_a_row_outside_the_geometry() {
    let (mut lcd, _) = CharLCDRGBI2C::new(16, 2).unwrap();
    lcd.set_cursor(5, 1).unwrap();
    let r = lcd.set_cursor(0, 2);
    assert!(matches!(r, Err(LcdError::Other(_))));
    // The failed call wrote nothing and left the tracked cursor alone.
    assert_eq!(lcd.tracked_cursor(), (5, 1));
}

#[test]
fn cursor_position_never_fails_and_tracks_the_clamped_target() {
    let (mut lcd, _) = CharLCDRGBI2C::new(16, 2).unwrap();
    assert!(lcd.cursor_position(5, 0).is_ok());
    assert_eq!(lcd.tracked_cursor(), (5, 0));
    assert!(lcd.cursor_position(16, 2).is_ok());
    assert_eq!(lcd.tracked_cursor(), (15, 1));
    assert!(lcd.cursor_position(0, 9).is_ok());
    assert_eq!(lcd.tracked_cursor(), (0, 1));
}

#[test]
fn construction_rejects_geometries_off_the_row_offset_table() {
    assert!(matches!(CharLCDRGBI2C::new(16, 0), Err(LcdError::Other(_))));
    assert!(matches!(CharLCDRGBI2C::new(16, 5), Err(LcdError::Other(_))));
    assert!(matches!(CharLCDRGBI2C::new(0, 2), Err(LcdError::Other(_))));
    assert!(matches!(CharLCDRGBI2C::new(200, 2), Err(LcdError::Other(_))));
    assert!(CharLCDRGBI2C::new(20, 4).is_ok());
}

#[test]
fn construction_tracks_the_origin_and_backlight_on() {
    let (lcd, _) = CharLCDRGBI2C::new(16, 2).unwrap();
    assert_eq!(lcd.tracked_cursor(), (0, 0));
    assert!(lcd.backlight_on());
    assert_eq!(lcd.last_message(), "");
}

#[test]
fn message_always_resets_the_tracked_cursor_to_the_origin() {
    let (mut lcd, _) = CharLCDRGBI2C::new(16, 2).unwrap();
    lcd.set_cursor(9, 1).unwrap();
    lcd.message("four lines\ndo\nnot\nfit").unwrap();
    assert_eq!(lcd.tracked_cursor(), (0, 0));
    lcd.message("plain").unwrap();
    assert_eq!(lcd.tracked_cursor(), (0, 0));
    lcd.message("").unwrap();
    assert_eq!(lcd.tracked_cursor(), (0, 0));
}

#[test]
fn message_retains_the_rendered_text() {
    let (mut lcd, _) = CharLCDRGBI2C::new(16, 2).unwrap();
    lcd.message("Hello World!").unwrap();
    assert_eq!(lcd.last_message(), "Hello World!");
    lcd.message("Bye").unwrap();
    assert_eq!(lcd.last_message(), "Bye");
}

#[test]
fn backlight_state_follows_each_request() {
    let (mut lcd, _) = CharLCDRGBI2C::new(16, 2).unwrap();
    lcd.set_backlight(true).unwrap();
    assert!(lcd.backlight_on());
    lcd.set_backlight(false).unwrap();
    assert!(!lcd.backlight_on());
}

#[test]
fn errors_carry_their_descriptive_text() {
    let e = LcdError::Other("boom".to_string());
    assert_eq!(e.describe(), "boom");
    let e = LcdError::I2c("bus gone".to_string());
    assert_eq!(e.describe(), "bus gone");
    let e = LcdError::Mcp("no expander".to_string());
    assert_eq!(e.describe(), "no expander");
}
