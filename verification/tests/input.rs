//! Tests of the two input state holders on their own.

use winpump::keyboard::Keyboard;
use winpump::mouse::{Event, Mouse};

#[test]
fn fresh_keyboard_is_clear() {
    let mut kbd = Keyboard::new();
    assert!(!kbd.key_is_pressed(0));
    assert!(!kbd.key_is_pressed(65));
    assert!(!kbd.key_is_pressed(255));
    assert!(!kbd.auto_repeat_is_enabled());
    assert_eq!(kbd.read_char(), None);
}

#[test]
fn pressed_set_tracks_latest_event() {
    let mut kbd = Keyboard::new();
    kbd.on_key_pressed(10);
    kbd.on_key_pressed(20);
    kbd.on_key_pressed(10);
    kbd.on_key_released(10);
    assert!(!kbd.key_is_pressed(10));
    assert!(kbd.key_is_pressed(20));
    assert!(!kbd.key_is_pressed(30));
    kbd.on_key_pressed(10);
    assert!(kbd.key_is_pressed(10));
}

#[test]
fn clear_state_empties_pressed_set_and_char_queue() {
    let mut kbd = Keyboard::new();
    kbd.enable_auto_repeat();
    kbd.on_key_pressed(5);
    kbd.on_key_pressed(200);
    kbd.on_char(0x48);
    kbd.on_char(0x69);
    kbd.clear_state();
    assert!(!kbd.key_is_pressed(5));
    assert!(!kbd.key_is_pressed(200));
    assert_eq!(kbd.read_char(), None);
    assert!(kbd.auto_repeat_is_enabled());
}

#[test]
fn char_queue_is_fifo() {
    let mut kbd = Keyboard::new();
    kbd.on_char(0x61);
    kbd.on_char(0x62);
    kbd.on_char(0x63);
    assert_eq!(kbd.read_char(), Some(0x61));
    assert_eq!(kbd.read_char(), Some(0x62));
    assert_eq!(kbd.read_char(), Some(0x63));
    assert_eq!(kbd.read_char(), None);
}

#[test]
fn auto_repeat_flag_toggles() {
    let mut kbd = Keyboard::new();
    assert!(!kbd.auto_repeat_is_enabled());
    kbd.enable_auto_repeat();
    assert!(kbd.auto_repeat_is_enabled());
    kbd.disable_auto_repeat();
    assert!(!kbd.auto_repeat_is_enabled());
}

#[test]
fn fresh_mouse_is_clear() {
    let mut mouse = Mouse::new();
    assert!(!mouse.is_in_window());
    assert!(!mouse.left_is_pressed());
    assert!(!mouse.right_is_pressed());
    assert!(mouse.is_empty());
    assert_eq!(mouse.read(), None);
}

#[test]
fn mouse_event_queue_is_fifo() {
    let mut mouse = Mouse::new();
    mouse.on_mouse_move(3, 4);
    mouse.on_left_pressed();
    mouse.on_wheel_delta(5, 6, -120);
    mouse.on_left_released();
    assert_eq!(mouse.read(), Some(Event::Move { x: 3, y: 4 }));
    assert_eq!(mouse.read(), Some(Event::LeftDown));
    assert_eq!(mouse.read(), Some(Event::Wheel { x: 5, y: 6, delta: -120 }));
    assert_eq!(mouse.read(), Some(Event::LeftUp));
    assert_eq!(mouse.read(), None);
    assert!(mouse.is_empty());
}

#[test]
fn button_flags_follow_press_and_release() {
    let mut mouse = Mouse::new();
    mouse.on_left_pressed();
    assert!(mouse.left_is_pressed());
    assert!(!mouse.right_is_pressed());
    mouse.on_right_pressed();
    assert!(mouse.right_is_pressed());
    mouse.on_left_released();
    assert!(!mouse.left_is_pressed());
    assert!(mouse.right_is_pressed());
    mouse.on_right_released();
    assert!(!mouse.right_is_pressed());
}

#[test]
fn enter_and_leave_set_in_window_flag() {
    let mut mouse = Mouse::new();
    mouse.on_mouse_enter();
    assert!(mouse.is_in_window());
    mouse.on_mouse_leave();
    assert!(!mouse.is_in_window());
}
