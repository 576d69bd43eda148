//! The window: dimensions, visibility, the two input state holders, and an
//! optional surface configuration, together with the router that maps each
//! native message to exactly one state transition and one follow-up action
//! for the platform layer to perform.

use vstd::prelude::*;

use crate::keyboard::{pressed_step, KeyEvent, Keyboard, KeyboardView};
use crate::mouse::{Event, Mouse, MouseView};
use crate::msg::{
    decode_high_word, decode_low_word, decode_repeat_echo, decode_signed_high_word,
    decode_signed_low_word, decode_wheel_delta, high_word, is_repeat_echo, low_word,
    signed_high_word, signed_low_word, wheel_delta, WM_ACTIVATE, WM_CHAR, WM_DESTROY, WM_KEYDOWN,
    WM_KEYUP, WM_KILLFOCUS, WM_LBUTTONDOWN, WM_LBUTTONUP, WM_MOUSEHWHEEL, WM_MOUSEMOVE, WM_PAINT,
    WM_RBUTTONDOWN, WM_RBUTTONUP, WM_SIZE, WM_SYSKEYDOWN, WM_SYSKEYUP,
};

verus! {

/// The dimensions a presentable surface is configured with. This is the
/// part of the graphics state the routing logic reads and writes; the
/// device and surface objects themselves live with the platform layer.
#[derive(Clone, Copy, Debug, PartialEq, Eq, Structural)]
pub struct SurfaceConfig {
    pub width: u32,
    pub height: u32,
}

impl SurfaceConfig {
    /// Law: a resize to zero width or height leaves the configured
    /// dimensions unchanged; a resize to positive dimensions sets them to
    /// exactly the given values.
    pub fn resize(&mut self, new_width: u32, new_height: u32)
        ensures
            new_width > 0 && new_height > 0 ==> *final(self) == (SurfaceConfig {
                width: new_width,
                height: new_height,
            }),
            !(new_width > 0 && new_height > 0) ==> *final(self) == *old(self),
    {
        if new_width > 0 && new_height > 0 {
            self.width = new_width;
            self.height = new_height;
        }
    }
}

/// What one render pass reported: success, a recoverable loss of the
/// surface, an unrecoverable out-of-memory condition, or a transient
/// condition expected to resolve itself by the next frame.
#[derive(Clone, Copy, Debug, PartialEq, Eq, Structural)]
pub enum RenderOutcome {
    Completed,
    SurfaceLost,
    OutOfMemory,
    Transient,
}

/// The one outside call, if any, that the platform layer must perform
/// after a message has been routed into a state transition.
#[derive(Clone, Copy, Debug, PartialEq, Eq, Structural)]
pub enum Action {
    /// The message is fully absorbed by the state transition.
    Handled,
    /// Begin capturing pointer input beyond the window bounds.
    CaptureMouse,
    /// Stop capturing pointer input.
    ReleaseCapture,
    /// Reconfigure the presentable surface to these dimensions.
    Reconfigure { width: u32, height: u32 },
    /// Render one frame and report the outcome back.
    RenderFrame,
    /// Post the quit signal to the native message queue.
    PostQuit,
    /// Forward the message unchanged to the platform's default handler.
    DefaultHandler,
}

/// A native message parameter that cannot be converted to its typed
/// representation (a key code above one byte, a character above one text
/// code unit). Fatal for the handler: the message is consumed, the state
/// is left unchanged, and the error is propagated.
#[derive(Clone, Copy, Debug, PartialEq, Eq, Structural)]
pub struct EncodingError {
    /// The message code whose parameter was malformed.
    pub code: u32,
    /// The parameter word that could not be converted.
    pub param: u64,
}

/// The abstract state of a [`Window`].
#[verifier::ext_equal]
pub struct WindowView {
    pub width: i32,
    pub height: i32,
    pub name: Seq<char>,
    pub visible: bool,
    pub kbd: KeyboardView,
    pub mouse: MouseView,
    pub gfx: Option<SurfaceConfig>,
}

/// The state a freshly constructed window starts in: not yet visible, no
/// surface attached, and both input holders empty.
pub open spec fn initial_window(width: i32, height: i32, name: Seq<char>) -> WindowView {
    WindowView {
        width,
        height,
        name,
        visible: false,
        kbd: KeyboardView { pressed: Set::empty(), chars: Seq::empty(), auto_repeat: false },
        mouse: MouseView {
            in_window: false,
            left_pressed: false,
            right_pressed: false,
            events: Seq::empty(),
        },
        gfx: None,
    }
}

/// The window's invariant: dimensions are positive, and the surface
/// configuration, when present, matches the window's last known
/// client-area dimensions exactly.
pub open spec fn window_inv(w: WindowView) -> bool {
    &&& 0 < w.width
    &&& 0 < w.height
    &&& (w.gfx matches Some(c) ==> c.width == w.width as u32 && c.height == w.height as u32)
}

/// Whether a pointer position lies inside the client rectangle.
pub open spec fn inside_client(w: WindowView, x: i32, y: i32) -> bool {
    0 <= x < w.width && 0 <= y < w.height
}

/// The mouse state after a pointer move to `(x, y)`. Inside the client
/// rectangle the move is recorded and the pointer is marked as in the
/// window; outside, the move is recorded only while a button is held
/// (drag-tracking), and otherwise the pointer is marked as having left.
pub open spec fn pointer_moved(w: WindowView, x: i32, y: i32) -> MouseView {
    if inside_client(w, x, y) {
        MouseView { in_window: true, events: w.mouse.events.push(Event::Move { x, y }), ..w.mouse }
    } else if w.mouse.left_pressed || w.mouse.right_pressed {
        MouseView { events: w.mouse.events.push(Event::Move { x, y }), ..w.mouse }
    } else {
        MouseView { in_window: false, ..w.mouse }
    }
}

/// The follow-up action of a pointer move: capture begins when the pointer
/// enters the client rectangle, and is released when it leaves with no
/// button held.
pub open spec fn pointer_move_action(w: WindowView, x: i32, y: i32) -> Action {
    if inside_client(w, x, y) {
        if w.mouse.in_window {
            Action::Handled
        } else {
            Action::CaptureMouse
        }
    } else if w.mouse.left_pressed || w.mouse.right_pressed {
        Action::Handled
    } else {
        Action::ReleaseCapture
    }
}

/// The window state after a client-area resize. Non-positive dimensions
/// leave everything unchanged; positive dimensions become the window's
/// dimensions and, when a surface is attached, its configured dimensions.
pub open spec fn resized(w: WindowView, width: i32, height: i32) -> WindowView {
    if width > 0 && height > 0 {
        WindowView {
            width,
            height,
            gfx: match w.gfx {
                Some(_) => Some(SurfaceConfig { width: width as u32, height: height as u32 }),
                None => None,
            },
            ..w
        }
    } else {
        w
    }
}

/// The follow-up action of a resize: the surface must be reconfigured
/// exactly when it exists and the new dimensions are positive.
pub open spec fn resize_action(w: WindowView, width: i32, height: i32) -> Action {
    if width > 0 && height > 0 && w.gfx is Some {
        Action::Reconfigure { width: width as u32, height: height as u32 }
    } else {
        Action::Handled
    }
}

/// The routing table: how one native message transforms the window state,
/// and which follow-up action it demands. `None` means the message's
/// parameter could not be converted (an encoding error); the state is then
/// left unchanged.
pub open spec fn routed(w: WindowView, code: u32, wparam: u64, lparam: u64) -> Option<
    (WindowView, Action),
> {
    if code == WM_ACTIVATE {
        Some((WindowView { visible: true, ..w }, Action::Handled))
    } else if code == WM_KEYDOWN || code == WM_SYSKEYDOWN {
        if wparam > 0xff {
            None
        } else {
            Some((
                WindowView {
                    kbd: KeyboardView {
                        pressed: pressed_step(
                            w.kbd.pressed,
                            w.kbd.auto_repeat,
                            KeyEvent::Down { key: wparam as u8, repeat_echo: is_repeat_echo(lparam) },
                        ),
                        ..w.kbd
                    },
                    ..w
                },
                Action::Handled,
            ))
        }
    } else if code == WM_KEYUP || code == WM_SYSKEYUP {
        if wparam > 0xff {
            None
        } else {
            Some((
                WindowView {
                    kbd: KeyboardView {
                        pressed: pressed_step(
                            w.kbd.pressed,
                            w.kbd.auto_repeat,
                            KeyEvent::Up { key: wparam as u8 },
                        ),
                        ..w.kbd
                    },
                    ..w
                },
                Action::Handled,
            ))
        }
    } else if code == WM_CHAR {
        if wparam > 0xffff {
            None
        } else {
            Some((
                WindowView {
                    kbd: KeyboardView { chars: w.kbd.chars.push(wparam as u16), ..w.kbd },
                    ..w
                },
                Action::Handled,
            ))
        }
    } else if code == WM_KILLFOCUS {
        Some((
            WindowView {
                kbd: KeyboardView {
                    pressed: Set::empty(),
                    chars: Seq::empty(),
                    auto_repeat: w.kbd.auto_repeat,
                },
                ..w
            },
            Action::Handled,
        ))
    } else if code == WM_MOUSEMOVE {
        Some((
            WindowView {
                mouse: pointer_moved(w, signed_low_word(lparam), signed_high_word(lparam)),
                ..w
            },
            pointer_move_action(w, signed_low_word(lparam), signed_high_word(lparam)),
        ))
    } else if code == WM_LBUTTONDOWN {
        Some((
            WindowView {
                mouse: MouseView {
                    left_pressed: true,
                    events: w.mouse.events.push(Event::LeftDown),
                    ..w.mouse
                },
                ..w
            },
            Action::Handled,
        ))
    } else if code == WM_LBUTTONUP {
        Some((
            WindowView {
                mouse: MouseView {
                    left_pressed: false,
                    events: w.mouse.events.push(Event::LeftUp),
                    ..w.mouse
                },
                ..w
            },
            Action::Handled,
        ))
    } else if code == WM_RBUTTONDOWN {
        Some((
            WindowView {
                mouse: MouseView {
                    right_pressed: true,
                    events: w.mouse.events.push(Event::RightDown),
                    ..w.mouse
                },
                ..w
            },
            Action::Handled,
        ))
    } else if code == WM_RBUTTONUP {
        Some((
            WindowView {
                mouse: MouseView {
                    right_pressed: false,
                    events: w.mouse.events.push(Event::RightUp),
                    ..w.mouse
                },
                ..w
            },
            Action::Handled,
        ))
    } else if code == WM_MOUSEHWHEEL {
        Some((
            WindowView {
                mouse: MouseView {
                    events: w.mouse.events.push(Event::Wheel {
                        x: signed_low_word(lparam),
                        y: signed_high_word(lparam),
                        delta: wheel_delta(wparam),
                    }),
                    ..w.mouse
                },
                ..w
            },
            Action::Handled,
        ))
    } else if code == WM_SIZE {
        Some((
            resized(w, low_word(lparam), high_word(lparam)),
            resize_action(w, low_word(lparam), high_word(lparam)),
        ))
    } else if code == WM_PAINT {
        Some((w, if w.gfx is Some { Action::RenderFrame } else { Action::Handled }))
    } else if code == WM_DESTROY {
        Some((w, Action::PostQuit))
    } else {
        Some((w, Action::DefaultHandler))
    }
}

/// Law: routing preserves the window invariant — whatever message arrives,
/// the dimensions stay positive and an attached surface stays sized to the
/// window's last known client-area dimensions.
pub proof fn lemma_routed_preserves_inv(w: WindowView, code: u32, wparam: u64, lparam: u64)
    requires
        window_inv(w),
    ensures
        routed(w, code, wparam, lparam) matches Some(p) ==> window_inv(p.0),
{
}

/// Law: routing never takes visibility away — once the window has been
/// activated, no message makes it invisible again in-process.
pub proof fn lemma_routed_preserves_visible(w: WindowView, code: u32, wparam: u64, lparam: u64)
    ensures
        routed(w, code, wparam, lparam) matches Some(p) ==> (w.visible ==> p.0.visible),
{
}

/// The positions of the queued `Move` events, in queue order.
pub open spec fn move_positions(events: Seq<Event>) -> Seq<(i32, i32)>
    decreases events.len(),
{
    if events.len() == 0 {
        Seq::empty()
    } else {
        let rest = move_positions(events.skip(1));
        match events[0] {
            Event::Move { x, y } => seq![(x, y)] + rest,
            _ => rest,
        }
    }
}

/// The window: owns the native-window model state, the two input state
/// holders, and the optional surface configuration.
pub struct Window {
    width: i32,
    height: i32,
    window_name: String,
    visible: bool,
    kbd: Keyboard,
    mouse: Mouse,
    gfx: Option<SurfaceConfig>,
}

impl View for Window {
    type V = WindowView;

    closed spec fn view(&self) -> WindowView {
        WindowView {
            width: self.width,
            height: self.height,
            name: self.window_name@,
            visible: self.visible,
            kbd: self.kbd@,
            mouse: self.mouse@,
            gfx: self.gfx,
        }
    }
}

impl Window {
    /// A fresh window of the given client-area dimensions and display
    /// name: not yet visible, no surface attached.
    pub fn new(width: i32, height: i32, window_user_name: &str) -> (w: Window)
        requires
            0 < width,
            0 < height,
        ensures
            w@ == initial_window(width, height, window_user_name@),
            window_inv(w@),
    {
        let w = Window {
            width,
            height,
            window_name: window_user_name.to_owned(),
            visible: false,
            kbd: Keyboard::new(),
            mouse: Mouse::new(),
            gfx: None,
        };
        proof {
            assert(w@ =~= initial_window(width, height, window_user_name@));
        }
        w
    }

    /// The client-area width the window was last sized to.
    pub fn width(&self) -> (r: i32)
        ensures
            r == self@.width,
    {
        self.width
    }

    /// The client-area height the window was last sized to.
    pub fn height(&self) -> (r: i32)
        ensures
            r == self@.height,
    {
        self.height
    }

    /// The window's display name.
    pub fn window_name(&self) -> (r: &String)
        ensures
            r@ == self@.name,
    {
        &self.window_name
    }

    /// Whether the window has been activated on screen.
    pub fn visible(&self) -> (r: bool)
        ensures
            r == self@.visible,
    {
        self.visible
    }

    /// Read access to the keyboard state holder.
    pub fn keyboard(&self) -> (r: &Keyboard)
        ensures
            r@ == self@.kbd,
    {
        &self.kbd
    }

    /// Read access to the mouse state holder.
    pub fn mouse(&self) -> (r: &Mouse)
        ensures
            r@ == self@.mouse,
    {
        &self.mouse
    }

    /// The dimensions the surface is configured with, if one is attached.
    pub fn surface_config(&self) -> (r: Option<SurfaceConfig>)
        ensures
            r == self@.gfx,
    {
        self.gfx
    }

    /// Records that surface creation completed: the surface starts out
    /// configured to the window's current client-area dimensions.
    pub fn attach_surface(&mut self)
        requires
            0 < old(self)@.width,
            0 < old(self)@.height,
        ensures
            final(self)@ == (WindowView {
                gfx: Some(SurfaceConfig {
                    width: old(self)@.width as u32,
                    height: old(self)@.height as u32,
                }),
                ..old(self)@
            }),
            window_inv(final(self)@),
    {
        self.gfx = Some(SurfaceConfig { width: self.width as u32, height: self.height as u32 });
        proof {
            assert(self@ =~= (WindowView {
                gfx: Some(SurfaceConfig {
                    width: old(self)@.width as u32,
                    height: old(self)@.height as u32,
                }),
                ..old(self)@
            }));
        }
    }

    /// Routes a pointer move. Law: a move outside the client rectangle
    /// while no button is held marks the mouse as having left the window;
    /// the same move while a button is held does not, and the move is
    /// still recorded (drag-tracking).
    pub fn on_pointer_move(&mut self, x: i32, y: i32) -> (a: Action)
        ensures
            final(self)@ == (WindowView { mouse: pointer_moved(old(self)@, x, y), ..old(self)@ }),
            a == pointer_move_action(old(self)@, x, y),
            !inside_client(old(self)@, x, y) && !old(self)@.mouse.left_pressed
                && !old(self)@.mouse.right_pressed ==> !final(self)@.mouse.in_window,
            !inside_client(old(self)@, x, y) && (old(self)@.mouse.left_pressed
                || old(self)@.mouse.right_pressed) ==> final(self)@.mouse.in_window == old(
                self,
            )@.mouse.in_window && final(self)@.mouse.events == old(self)@.mouse.events.push(
                Event::Move { x, y },
            ),
    {
        let a: Action;
        if 0 <= x && x < self.width && 0 <= y && y < self.height {
            self.mouse.on_mouse_move(x, y);
            if !self.mouse.is_in_window() {
                self.mouse.on_mouse_enter();
                a = Action::CaptureMouse;
            } else {
                a = Action::Handled;
            }
        } else {
            if self.mouse.left_is_pressed() || self.mouse.right_is_pressed() {
                self.mouse.on_mouse_move(x, y);
                a = Action::Handled;
            } else {
                self.mouse.on_mouse_leave();
                a = Action::ReleaseCapture;
            }
        }
        proof {
            assert(self@.mouse =~= pointer_moved(old(self)@, x, y));
            assert(self@ =~= (WindowView { mouse: pointer_moved(old(self)@, x, y), ..old(self)@ }));
        }
        a
    }

    /// Routes a client-area resize. Law: a resize with non-positive width
    /// or height changes nothing; a resize with positive dimensions sets
    /// the window's dimensions, and the surface's configured dimensions
    /// when one is attached, to exactly the given values.
    pub fn on_resize(&mut self, width: i32, height: i32) -> (a: Action)
        ensures
            final(self)@ == resized(old(self)@, width, height),
            a == resize_action(old(self)@, width, height),
            !(width > 0 && height > 0) ==> final(self)@ == old(self)@,
            width > 0 && height > 0 && old(self)@.gfx is Some ==> final(self)@.gfx == Some(
                SurfaceConfig { width: width as u32, height: height as u32 },
            ),
    {
        if width > 0 && height > 0 {
            self.width = width;
            self.height = height;
            let a: Action;
            match &mut self.gfx {
                Some(config) => {
                    config.resize(width as u32, height as u32);
                    a = Action::Reconfigure { width: width as u32, height: height as u32 };
                },
                None => {
                    a = Action::Handled;
                },
            }
            proof {
                assert(self@ =~= resized(old(self)@, width, height));
            }
            a
        } else {
            proof {
                assert(self@ =~= resized(old(self)@, width, height));
            }
            Action::Handled
        }
    }

    /// Absorbs the outcome of one render pass: a lost surface is
    /// reconfigured at the window's current dimensions, an out-of-memory
    /// condition requests quit, and transient conditions are left to
    /// resolve themselves by the next frame.
    pub fn on_render_outcome(&mut self, outcome: RenderOutcome) -> (a: Action)
        requires
            0 < old(self)@.width,
            0 < old(self)@.height,
        ensures
            outcome != RenderOutcome::SurfaceLost ==> final(self)@ == old(self)@,
            outcome == RenderOutcome::Completed || outcome == RenderOutcome::Transient ==> a
                == Action::Handled,
            outcome == RenderOutcome::OutOfMemory ==> a == Action::PostQuit,
            outcome == RenderOutcome::SurfaceLost && old(self)@.gfx is Some ==> final(self)@ == (
            WindowView {
                gfx: Some(SurfaceConfig {
                    width: old(self)@.width as u32,
                    height: old(self)@.height as u32,
                }),
                ..old(self)@
            }) && a == (Action::Reconfigure {
                width: old(self)@.width as u32,
                height: old(self)@.height as u32,
            }),
            outcome == RenderOutcome::SurfaceLost && old(self)@.gfx is None ==> final(self)@ == old(
                self,
            )@ && a == Action::Handled,
    {
        match outcome {
            RenderOutcome::Completed => Action::Handled,
            RenderOutcome::Transient => Action::Handled,
            RenderOutcome::OutOfMemory => Action::PostQuit,
            RenderOutcome::SurfaceLost => {
                let width = self.width;
                let height = self.height;
                match &mut self.gfx {
                    Some(config) => {
                        config.resize(width as u32, height as u32);
                        proof {
                            assert(self@ =~= (WindowView {
                                gfx: Some(SurfaceConfig {
                                    width: old(self)@.width as u32,
                                    height: old(self)@.height as u32,
                                }),
                                ..old(self)@
                            }));
                        }
                        Action::Reconfigure { width: width as u32, height: height as u32 }
                    },
                    None => Action::Handled,
                }
            },
        }
    }

    /// Routes one native message to exactly one state transition and one
    /// follow-up action, as the routing table [`routed`] states. On an
    /// encoding error the state is unchanged and the message is consumed.
    pub fn handle_message(&mut self, code: u32, wparam: u64, lparam: u64) -> (r: Result<
        Action,
        EncodingError,
    >)
        ensures
            ({
                let route = routed(old(self)@, code, wparam, lparam);
                match r {
                    Ok(a) => route == Some((final(self)@, a)),
                    Err(e) => route is None && final(self)@ == old(self)@ && e == (EncodingError {
                        code,
                        param: wparam,
                    }),
                }
            }),
    {
        if code == WM_ACTIVATE {
            self.visible = true;
            proof {
                assert(self@ =~= (WindowView { visible: true, ..old(self)@ }));
            }
            Ok(Action::Handled)
        } else if code == WM_KEYDOWN || code == WM_SYSKEYDOWN {
            if wparam > 0xff {
                return Err(EncodingError { code, param: wparam });
            }
            let key = wparam as u8;
            let echo = decode_repeat_echo(lparam);
            if !echo || self.kbd.auto_repeat_is_enabled() {
                self.kbd.on_key_pressed(key);
            }
            proof {
                assert(self@.kbd =~= (KeyboardView {
                    pressed: pressed_step(
                        old(self)@.kbd.pressed,
                        old(self)@.kbd.auto_repeat,
                        KeyEvent::Down { key, repeat_echo: is_repeat_echo(lparam) },
                    ),
                    ..old(self)@.kbd
                }));
                assert(self@ =~= (WindowView { kbd: self@.kbd, ..old(self)@ }));
            }
            Ok(Action::Handled)
        } else if code == WM_KEYUP || code == WM_SYSKEYUP {
            if wparam > 0xff {
                return Err(EncodingError { code, param: wparam });
            }
            let key = wparam as u8;
            self.kbd.on_key_released(key);
            proof {
                assert(self@ =~= (WindowView {
                    kbd: KeyboardView {
                        pressed: old(self)@.kbd.pressed.remove(key),
                        ..old(self)@.kbd
                    },
                    ..old(self)@
                }));
            }
            Ok(Action::Handled)
        } else if code == WM_CHAR {
            if wparam > 0xffff {
                return Err(EncodingError { code, param: wparam });
            }
            self.kbd.on_char(wparam as u16);
            proof {
                assert(self@ =~= (WindowView {
                    kbd: KeyboardView {
                        chars: old(self)@.kbd.chars.push(wparam as u16),
                        ..old(self)@.kbd
                    },
                    ..old(self)@
                }));
            }
            Ok(Action::Handled)
        } else if code == WM_KILLFOCUS {
            self.kbd.clear_state();
            proof {
                assert(self@ =~= (WindowView {
                    kbd: KeyboardView {
                        pressed: Set::empty(),
                        chars: Seq::empty(),
                        auto_repeat: old(self)@.kbd.auto_repeat,
                    },
                    ..old(self)@
                }));
            }
            Ok(Action::Handled)
        } else if code == WM_MOUSEMOVE {
            let x = decode_signed_low_word(lparam);
            let y = decode_signed_high_word(lparam);
            Ok(self.on_pointer_move(x, y))
        } else if code == WM_LBUTTONDOWN {
            self.mouse.on_left_pressed();
            proof {
                assert(self@ =~= (WindowView {
                    mouse: MouseView {
                        left_pressed: true,
                        events: old(self)@.mouse.events.push(Event::LeftDown),
                        ..old(self)@.mouse
                    },
                    ..old(self)@
                }));
            }
            Ok(Action::Handled)
        } else if code == WM_LBUTTONUP {
            self.mouse.on_left_released();
            proof {
                assert(self@ =~= (WindowView {
                    mouse: MouseView {
                        left_pressed: false,
                        events: old(self)@.mouse.events.push(Event::LeftUp),
                        ..old(self)@.mouse
                    },
                    ..old(self)@
                }));
            }
            Ok(Action::Handled)
        } else if code == WM_RBUTTONDOWN {
            self.mouse.on_right_pressed();
            proof {
                assert(self@ =~= (WindowView {
                    mouse: MouseView {
                        right_pressed: true,
                        events: old(self)@.mouse.events.push(Event::RightDown),
                        ..old(self)@.mouse
                    },
                    ..old(self)@
                }));
            }
            Ok(Action::Handled)
        } else if code == WM_RBUTTONUP {
            self.mouse.on_right_released();
            proof {
                assert(self@ =~= (WindowView {
                    mouse: MouseView {
                        right_pressed: false,
                        events: old(self)@.mouse.events.push(Event::RightUp),
                        ..old(self)@.mouse
                    },
                    ..old(self)@
                }));
            }
            Ok(Action::Handled)
        } else if code == WM_MOUSEHWHEEL {
            let x = decode_signed_low_word(lparam);
            let y = decode_signed_high_word(lparam);
            let delta = decode_wheel_delta(wparam);
            self.mouse.on_wheel_delta(x, y, delta);
            proof {
                assert(self@ =~= (WindowView {
                    mouse: MouseView {
                        events: old(self)@.mouse.events.push(Event::Wheel {
                            x: signed_low_word(lparam),
                            y: signed_high_word(lparam),
                            delta: wheel_delta(wparam),
                        }),
                        ..old(self)@.mouse
                    },
                    ..old(self)@
                }));
            }
            Ok(Action::Handled)
        } else if code == WM_SIZE {
            let width = decode_low_word(lparam);
            let height = decode_high_word(lparam);
            Ok(self.on_resize(width, height))
        } else if code == WM_PAINT {
            if self.gfx.is_some() {
                Ok(Action::RenderFrame)
            } else {
                Ok(Action::Handled)
            }
        } else if code == WM_DESTROY {
            Ok(Action::PostQuit)
        } else {
            Ok(Action::DefaultHandler)
        }
    }

    /// Makes auto-repeat key-down echoes count as fresh presses.
    pub fn enable_auto_repeat(&mut self)
        ensures
            final(self)@ == (WindowView {
                kbd: KeyboardView { auto_repeat: true, ..old(self)@.kbd },
                ..old(self)@
            }),
    {
        self.kbd.enable_auto_repeat();
        proof {
            assert(self@ =~= (WindowView {
                kbd: KeyboardView { auto_repeat: true, ..old(self)@.kbd },
                ..old(self)@
            }));
        }
    }

    /// Makes auto-repeat key-down echoes be ignored.
    pub fn disable_auto_repeat(&mut self)
        ensures
            final(self)@ == (WindowView {
                kbd: KeyboardView { auto_repeat: false, ..old(self)@.kbd },
                ..old(self)@
            }),
    {
        self.kbd.disable_auto_repeat();
        proof {
            assert(self@ =~= (WindowView {
                kbd: KeyboardView { auto_repeat: false, ..old(self)@.kbd },
                ..old(self)@
            }));
        }
    }

    /// Removes and returns the oldest queued character, if any.
    pub fn read_char(&mut self) -> (r: Option<u16>)
        ensures
            old(self)@.kbd.chars.len() == 0 ==> r is None && final(self)@ == old(self)@,
            old(self)@.kbd.chars.len() > 0 ==> r == Some(old(self)@.kbd.chars[0]) && final(self)@
                == (WindowView {
                kbd: KeyboardView { chars: old(self)@.kbd.chars.skip(1), ..old(self)@.kbd },
                ..old(self)@
            }),
    {
        let r = self.kbd.read_char();
        proof {
            if old(self)@.kbd.chars.len() == 0 {
                assert(self@ =~= old(self)@);
            } else {
                assert(self@ =~= (WindowView {
                    kbd: KeyboardView { chars: old(self)@.kbd.chars.skip(1), ..old(self)@.kbd },
                    ..old(self)@
                }));
            }
        }
        r
    }

    /// Removes and returns the oldest queued mouse event, if any.
    pub fn read_mouse_event(&mut self) -> (r: Option<Event>)
        ensures
            old(self)@.mouse.events.len() == 0 ==> r is None && final(self)@ == old(self)@,
            old(self)@.mouse.events.len() > 0 ==> r == Some(old(self)@.mouse.events[0])
                && final(self)@ == (WindowView {
                mouse: MouseView { events: old(self)@.mouse.events.skip(1), ..old(self)@.mouse },
                ..old(self)@
            }),
    {
        let r = self.mouse.read();
        proof {
            if old(self)@.mouse.events.len() == 0 {
                assert(self@ =~= old(self)@);
            } else {
                assert(self@ =~= (WindowView {
                    mouse: MouseView {
                        events: old(self)@.mouse.events.skip(1),
                        ..old(self)@.mouse
                    },
                    ..old(self)@
                }));
            }
        }
        r
    }

    /// Drains the mouse event queue and returns the positions of the
    /// queued `Move` events, in queue order; everything else the queue
    /// held is discarded with it.
    pub fn pending_move_positions(&mut self) -> (r: Vec<(i32, i32)>)
        ensures
            r@ == move_positions(old(self)@.mouse.events),
            final(self)@ == (WindowView {
                mouse: MouseView { events: Seq::empty(), ..old(self)@.mouse },
                ..old(self)@
            }),
    {
        let mut r: Vec<(i32, i32)> = Vec::new();
        while !self.mouse.is_empty()
            invariant
                self@ == (WindowView {
                    mouse: MouseView { events: self@.mouse.events, ..old(self)@.mouse },
                    ..old(self)@
                }),
                move_positions(old(self)@.mouse.events) == r@ + move_positions(self@.mouse.events),
            decreases self@.mouse.events.len(),
        {
            let ghost pre = self@;
            let event = self.mouse.read();
            match event {
                Some(Event::Move { x, y }) => {
                    r.push((x, y));
                    proof {
                        assert(r@ =~= (r@.drop_last() + seq![(x, y)]));
                        assert(r@ + move_positions(self@.mouse.events) =~= r@.drop_last() + (seq![
                            (x, y),
                        ] + move_positions(pre.mouse.events.skip(1))));
                    }
                },
                _ => {},
            }
            proof {
                assert(self@ =~= (WindowView {
                    mouse: MouseView { events: self@.mouse.events, ..old(self)@.mouse },
                    ..old(self)@
                }));
            }
        }
        proof {
            assert(move_positions(self@.mouse.events) =~= Seq::<(i32, i32)>::empty());
            assert(r@ =~= r@ + move_positions(self@.mouse.events));
            assert(self@ =~= (WindowView {
                mouse: MouseView { events: Seq::empty(), ..old(self)@.mouse },
                ..old(self)@
            }));
        }
        r
    }
}

} // verus!
