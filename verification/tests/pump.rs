//! Tests of the driver's visibility-gated message-pump scheduling.

use winpump::app::{App, PumpOutcome, RunOutcome};
use winpump::msg::{Msg, WM_ACTIVATE, WM_DESTROY, WM_KEYDOWN, WM_QUIT, WM_SIZE};
use winpump::window::{EncodingError, SurfaceConfig};

#[test]
fn fresh_app_has_a_default_window() {
    let app = App::new();
    assert_eq!(app.window().width(), 800);
    assert_eq!(app.window().height(), 600);
    assert_eq!(app.window().window_name().as_str(), "-");
    assert!(!app.window().visible());
    assert_eq!(app.window().surface_config(), None);
}

#[test]
fn pump_would_block_while_not_visible_and_queue_empty() {
    let mut app = App::new();
    let mut queue: Vec<Msg> = Vec::new();
    assert_eq!(app.pump_iteration(&mut queue), Ok(PumpOutcome::WouldBlock));
}

#[test]
fn pump_blocking_mode_dispatches_one_message_per_iteration() {
    let mut app = App::new();
    let mut queue = vec![
        Msg { code: WM_ACTIVATE, wparam: 0, lparam: 0 },
        Msg { code: WM_KEYDOWN, wparam: 65, lparam: 0 },
    ];
    assert_eq!(app.pump_iteration(&mut queue), Ok(PumpOutcome::Dispatched));
    assert!(app.window().visible());
    assert_eq!(queue.len(), 1);
    assert!(!app.window().keyboard().key_is_pressed(65));
}

#[test]
fn quit_during_blocking_wait_ends_the_iteration() {
    let mut app = App::new();
    let mut queue = vec![
        Msg { code: WM_QUIT, wparam: 0, lparam: 0 },
        Msg { code: WM_KEYDOWN, wparam: 65, lparam: 0 },
    ];
    assert_eq!(app.pump_iteration(&mut queue), Ok(PumpOutcome::Quit));
    assert_eq!(queue.len(), 1);
    assert!(!app.window().keyboard().key_is_pressed(65));
}

#[test]
fn visible_iteration_drains_everything_before_rendering() {
    let mut app = App::new();
    let mut activate = vec![Msg { code: WM_ACTIVATE, wparam: 0, lparam: 0 }];
    assert_eq!(app.pump_iteration(&mut activate), Ok(PumpOutcome::Dispatched));
    let mut queue = vec![
        Msg { code: WM_KEYDOWN, wparam: 65, lparam: 0 },
        Msg { code: WM_KEYDOWN, wparam: 66, lparam: 0 },
        Msg { code: WM_SIZE, wparam: 0, lparam: 640 | (480 << 16) },
    ];
    assert_eq!(app.pump_iteration(&mut queue), Ok(PumpOutcome::ReadyToRender));
    assert_eq!(queue.len(), 0);
    assert!(app.window().keyboard().key_is_pressed(65));
    assert!(app.window().keyboard().key_is_pressed(66));
    assert_eq!(app.window().width(), 640);
    assert_eq!(app.window().height(), 480);
}

#[test]
fn quit_mid_drain_ends_the_iteration_without_rendering() {
    let mut app = App::new();
    let mut activate = vec![Msg { code: WM_ACTIVATE, wparam: 0, lparam: 0 }];
    app.pump_iteration(&mut activate).unwrap();
    let mut queue = vec![
        Msg { code: WM_KEYDOWN, wparam: 65, lparam: 0 },
        Msg { code: WM_QUIT, wparam: 0, lparam: 0 },
        Msg { code: WM_KEYDOWN, wparam: 66, lparam: 0 },
    ];
    assert_eq!(app.pump_iteration(&mut queue), Ok(PumpOutcome::Quit));
    assert_eq!(queue.len(), 1);
    assert!(app.window().keyboard().key_is_pressed(65));
    assert!(!app.window().keyboard().key_is_pressed(66));
}

#[test]
fn posted_quit_is_honoured_in_the_same_visible_iteration() {
    let mut app = App::new();
    let mut activate = vec![Msg { code: WM_ACTIVATE, wparam: 0, lparam: 0 }];
    app.pump_iteration(&mut activate).unwrap();
    let mut queue = vec![Msg { code: WM_DESTROY, wparam: 0, lparam: 0 }];
    assert_eq!(app.pump_iteration(&mut queue), Ok(PumpOutcome::Quit));
    assert_eq!(queue.len(), 0);
}

#[test]
fn posted_quit_is_honoured_on_the_next_blocking_wait() {
    let mut app = App::new();
    let mut queue = vec![Msg { code: WM_DESTROY, wparam: 0, lparam: 0 }];
    assert_eq!(app.pump_iteration(&mut queue), Ok(PumpOutcome::Dispatched));
    assert_eq!(app.pump_iteration(&mut queue), Ok(PumpOutcome::Quit));
}

#[test]
fn run_blocks_when_the_stream_dries_up_before_visibility() {
    let mut app = App::new();
    let mut queue = vec![Msg { code: WM_KEYDOWN, wparam: 65, lparam: 0 }];
    assert_eq!(app.run(&mut queue), Ok(RunOutcome::Blocked));
    assert!(app.window().keyboard().key_is_pressed(65));
    assert_eq!(queue.len(), 0);
}

#[test]
fn run_goes_idle_when_the_stream_dries_up_while_visible() {
    let mut app = App::new();
    let mut queue = vec![
        Msg { code: WM_ACTIVATE, wparam: 0, lparam: 0 },
        Msg { code: WM_KEYDOWN, wparam: 65, lparam: 0 },
    ];
    assert_eq!(app.run(&mut queue), Ok(RunOutcome::Idle));
    assert!(app.window().visible());
    assert!(app.window().keyboard().key_is_pressed(65));
    assert_eq!(queue.len(), 0);
}

#[test]
fn run_full_window_lifecycle() {
    let mut app = App::new();
    app.attach_surface();
    assert_eq!(app.window().surface_config(), Some(SurfaceConfig { width: 800, height: 600 }));
    let mut queue = vec![
        Msg { code: WM_ACTIVATE, wparam: 0, lparam: 0 },
        Msg { code: WM_SIZE, wparam: 0, lparam: 640 | (480 << 16) },
        Msg { code: WM_DESTROY, wparam: 0, lparam: 0 },
    ];
    assert_eq!(app.run(&mut queue), Ok(RunOutcome::Quit));
    assert!(app.window().visible());
    assert_eq!(app.window().surface_config(), Some(SurfaceConfig { width: 640, height: 480 }));
    assert_eq!(queue.len(), 0);
}

#[test]
fn run_stops_at_an_encoding_error() {
    let mut app = App::new();
    let mut queue = vec![
        Msg { code: WM_ACTIVATE, wparam: 0, lparam: 0 },
        Msg { code: WM_KEYDOWN, wparam: 0x1ff, lparam: 0 },
        Msg { code: WM_KEYDOWN, wparam: 65, lparam: 0 },
    ];
    assert_eq!(
        app.run(&mut queue),
        Err(EncodingError { code: WM_KEYDOWN, param: 0x1ff })
    );
    assert!(app.window().visible());
    assert!(!app.window().keyboard().key_is_pressed(65));
    assert_eq!(queue.len(), 1);
}
