//! The keyboard state holder: the set of currently pressed key codes, a
//! FIFO queue of character input, and the auto-repeat flag that decides
//! whether repeated key-down echoes count as fresh presses.

use vstd::prelude::*;

verus! {

/// Key codes fit one byte; the pressed-state table has one slot per code.
pub const KEY_CODE_SPAN: usize = 256;

/// The abstract state of a [`Keyboard`]: which key codes are down, the
/// queued character input in arrival order, and the auto-repeat flag.
#[verifier::ext_equal]
pub struct KeyboardView {
    pub pressed: Set<u8>,
    pub chars: Seq<u16>,
    pub auto_repeat: bool,
}

/// One keyboard-relevant event, as the message router sees it: a key-down
/// (with its auto-repeat-echo flag), a key-up, or a loss of focus.
#[derive(Clone, Copy, Debug, PartialEq, Eq, Structural)]
pub enum KeyEvent {
    Down { key: u8, repeat_echo: bool },
    Up { key: u8 },
    FocusLost,
}

/// How one event transforms the pressed set. A key-down registers the key
/// unless it is an auto-repeat echo arriving while auto-repeat is disabled;
/// a key-up always removes the key; focus loss empties the set.
pub open spec fn pressed_step(pressed: Set<u8>, auto_repeat: bool, event: KeyEvent) -> Set<u8> {
    match event {
        KeyEvent::Down { key, repeat_echo } => if !repeat_echo || auto_repeat {
            pressed.insert(key)
        } else {
            pressed
        },
        KeyEvent::Up { key } => pressed.remove(key),
        KeyEvent::FocusLost => Set::empty(),
    }
}

/// The pressed set after a whole sequence of events, applied in order.
pub open spec fn pressed_run(pressed: Set<u8>, auto_repeat: bool, events: Seq<KeyEvent>) -> Set<u8>
    decreases events.len(),
{
    if events.len() == 0 {
        pressed
    } else {
        pressed_step(pressed_run(pressed, auto_repeat, events.drop_last()), auto_repeat, events.last())
    }
}

/// Whether the most recent event that decides `key` is an effective
/// key-down: a down for `key` that is not an ignored auto-repeat echo,
/// with no later key-up for `key` and no later focus loss. With no
/// deciding event at all, the key keeps its starting state `was_down`.
pub open spec fn latest_is_down(was_down: bool, auto_repeat: bool, events: Seq<KeyEvent>, key: u8) -> bool
    decreases events.len(),
{
    if events.len() == 0 {
        was_down
    } else {
        match events.last() {
            KeyEvent::Down { key: k, repeat_echo } => if k == key && (!repeat_echo || auto_repeat) {
                true
            } else {
                latest_is_down(was_down, auto_repeat, events.drop_last(), key)
            },
            KeyEvent::Up { key: k } => if k == key {
                false
            } else {
                latest_is_down(was_down, auto_repeat, events.drop_last(), key)
            },
            KeyEvent::FocusLost => false,
        }
    }
}

/// Law: after any sequence of key events the pressed set contains exactly
/// the keys whose most recent deciding event was an effective key-down —
/// and excludes every key whose most recent deciding event was a key-up or
/// that was last pressed before a focus loss.
pub proof fn lemma_pressed_set_tracks_events(
    pressed: Set<u8>,
    auto_repeat: bool,
    events: Seq<KeyEvent>,
    key: u8,
)
    ensures
        pressed_run(pressed, auto_repeat, events).contains(key) == latest_is_down(
            pressed.contains(key),
            auto_repeat,
            events,
            key,
        ),
    decreases events.len(),
{
    if events.len() > 0 {
        lemma_pressed_set_tracks_events(pressed, auto_repeat, events.drop_last(), key);
    }
}

/// The keyboard state holder. Mutated only by the window's message
/// handler; read by application logic.
pub struct Keyboard {
    pressed: [bool; KEY_CODE_SPAN],
    chars: Vec<u16>,
    auto_repeat: bool,
}

impl View for Keyboard {
    type V = KeyboardView;

    closed spec fn view(&self) -> KeyboardView {
        KeyboardView {
            pressed: Set::new(|k: u8| self.pressed@[k as int]),
            chars: self.chars@,
            auto_repeat: self.auto_repeat,
        }
    }
}

impl Keyboard {
    /// A fresh keyboard: nothing pressed, no queued characters, and
    /// auto-repeat echoes ignored.
    pub fn new() -> (kbd: Keyboard)
        ensures
            kbd@ == (KeyboardView { pressed: Set::empty(), chars: Seq::empty(), auto_repeat: false }),
    {
        let kbd = Keyboard { pressed: [false; KEY_CODE_SPAN], chars: Vec::new(), auto_repeat: false };
        proof {
            assert(kbd@.pressed =~= Set::<u8>::empty());
            assert(kbd@ =~= (KeyboardView {
                pressed: Set::empty(),
                chars: Seq::empty(),
                auto_repeat: false,
            }));
        }
        kbd
    }

    /// Whether `key` is currently registered as pressed.
    pub fn key_is_pressed(&self, key: u8) -> (r: bool)
        ensures
            r == self@.pressed.contains(key),
    {
        self.pressed[key as usize]
    }

    /// Registers `key` as pressed.
    pub fn on_key_pressed(&mut self, key: u8)
        ensures
            final(self)@ == (KeyboardView { pressed: old(self)@.pressed.insert(key), ..old(self)@ }),
    {
        self.pressed[key as usize] = true;
        proof {
            assert(self@.pressed =~= old(self)@.pressed.insert(key));
            assert(self@ =~= (KeyboardView { pressed: old(self)@.pressed.insert(key), ..old(self)@ }));
        }
    }

    /// Registers `key` as released.
    pub fn on_key_released(&mut self, key: u8)
        ensures
            final(self)@ == (KeyboardView { pressed: old(self)@.pressed.remove(key), ..old(self)@ }),
    {
        self.pressed[key as usize] = false;
        proof {
            assert(self@.pressed =~= old(self)@.pressed.remove(key));
            assert(self@ =~= (KeyboardView { pressed: old(self)@.pressed.remove(key), ..old(self)@ }));
        }
    }

    /// Appends one decoded character (a 16-bit text code unit) to the
    /// input queue.
    pub fn on_char(&mut self, code: u16)
        ensures
            final(self)@ == (KeyboardView { chars: old(self)@.chars.push(code), ..old(self)@ }),
    {
        self.chars.push(code);
        proof {
            assert(self@ =~= (KeyboardView { chars: old(self)@.chars.push(code), ..old(self)@ }));
        }
    }

    /// Removes and returns the oldest queued character, if any.
    pub fn read_char(&mut self) -> (r: Option<u16>)
        ensures
            old(self)@.chars.len() == 0 ==> r is None && final(self)@ == old(self)@,
            old(self)@.chars.len() > 0 ==> r == Some(old(self)@.chars[0]) && final(self)@ == (
            KeyboardView { chars: old(self)@.chars.skip(1), ..old(self)@ }),
    {
        if self.chars.is_empty() {
            proof {
                assert(self@ =~= old(self)@);
            }
            None
        } else {
            let code = self.chars.remove(0);
            proof {
                assert(self@.chars =~= old(self)@.chars.skip(1));
                assert(self@ =~= (KeyboardView { chars: old(self)@.chars.skip(1), ..old(self)@ }));
            }
            Some(code)
        }
    }

    /// Law: losing focus empties both the pressed set and the character
    /// queue, whatever they held; only the auto-repeat flag survives.
    pub fn clear_state(&mut self)
        ensures
            final(self)@ == (KeyboardView {
                pressed: Set::empty(),
                chars: Seq::empty(),
                auto_repeat: old(self)@.auto_repeat,
            }),
    {
        self.pressed = [false; KEY_CODE_SPAN];
        self.chars.clear();
        proof {
            assert(self@.pressed =~= Set::<u8>::empty());
            assert(self@ =~= (KeyboardView {
                pressed: Set::empty(),
                chars: Seq::empty(),
                auto_repeat: old(self)@.auto_repeat,
            }));
        }
    }

    /// Whether auto-repeat echoes count as fresh key presses.
    pub fn auto_repeat_is_enabled(&self) -> (r: bool)
        ensures
            r == self@.auto_repeat,
    {
        self.auto_repeat
    }

    /// Makes auto-repeat echoes count as fresh key presses.
    pub fn enable_auto_repeat(&mut self)
        ensures
            final(self)@ == (KeyboardView { auto_repeat: true, ..old(self)@ }),
    {
        self.auto_repeat = true;
        proof {
            assert(self@ =~= (KeyboardView { auto_repeat: true, ..old(self)@ }));
        }
    }

    /// Makes auto-repeat echoes be ignored.
    pub fn disable_auto_repeat(&mut self)
        ensures
            final(self)@ == (KeyboardView { auto_repeat: false, ..old(self)@ }),
    {
        self.auto_repeat = false;
        proof {
            assert(self@ =~= (KeyboardView { auto_repeat: false, ..old(self)@ }));
        }
    }
}

} // verus!
