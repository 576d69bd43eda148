//! The mouse state holder: the in-window flag, the two button flags, and a
//! FIFO queue of positional, button and wheel events.

use vstd::prelude::*;

verus! {

/// One queued mouse event. Positions are client-area coordinates as the
/// router decoded them; the wheel delta is the signed 16-bit quantity from
/// the message's first parameter word.
#[derive(Clone, Copy, Debug, PartialEq, Eq, Structural)]
pub enum Event {
    Move { x: i32, y: i32 },
    LeftDown,
    LeftUp,
    RightDown,
    RightUp,
    Wheel { x: i32, y: i32, delta: i32 },
}

/// The abstract state of a [`Mouse`]: whether the pointer is inside the
/// client area, which buttons are held, and the queued events in arrival
/// order.
#[verifier::ext_equal]
pub struct MouseView {
    pub in_window: bool,
    pub left_pressed: bool,
    pub right_pressed: bool,
    pub events: Seq<Event>,
}

/// The mouse state holder. Mutated only by the window's message handler;
/// read by application logic.
pub struct Mouse {
    in_window: bool,
    left_pressed: bool,
    right_pressed: bool,
    events: Vec<Event>,
}

impl View for Mouse {
    type V = MouseView;

    closed spec fn view(&self) -> MouseView {
        MouseView {
            in_window: self.in_window,
            left_pressed: self.left_pressed,
            right_pressed: self.right_pressed,
            events: self.events@,
        }
    }
}

impl Mouse {
    /// A fresh mouse: outside the window, no button held, no queued events.
    pub fn new() -> (mouse: Mouse)
        ensures
            mouse@ == (MouseView {
                in_window: false,
                left_pressed: false,
                right_pressed: false,
                events: Seq::empty(),
            }),
    {
        let mouse = Mouse {
            in_window: false,
            left_pressed: false,
            right_pressed: false,
            events: Vec::new(),
        };
        proof {
            assert(mouse@ =~= (MouseView {
                in_window: false,
                left_pressed: false,
                right_pressed: false,
                events: Seq::empty(),
            }));
        }
        mouse
    }

    /// Whether the pointer was last seen inside the client area.
    pub fn is_in_window(&self) -> (r: bool)
        ensures
            r == self@.in_window,
    {
        self.in_window
    }

    /// Whether the left button is held.
    pub fn left_is_pressed(&self) -> (r: bool)
        ensures
            r == self@.left_pressed,
    {
        self.left_pressed
    }

    /// Whether the right button is held.
    pub fn right_is_pressed(&self) -> (r: bool)
        ensures
            r == self@.right_pressed,
    {
        self.right_pressed
    }

    /// Whether the event queue is empty.
    pub fn is_empty(&self) -> (r: bool)
        ensures
            r == (self@.events.len() == 0),
    {
        self.events.is_empty()
    }

    /// Records a pointer position.
    pub fn on_mouse_move(&mut self, x: i32, y: i32)
        ensures
            final(self)@ == (MouseView { events: old(self)@.events.push(Event::Move { x, y }), ..old(self)@ }),
    {
        self.events.push(Event::Move { x, y });
        proof {
            assert(self@ =~= (MouseView {
                events: old(self)@.events.push(Event::Move { x, y }),
                ..old(self)@
            }));
        }
    }

    /// Marks the pointer as inside the client area.
    pub fn on_mouse_enter(&mut self)
        ensures
            final(self)@ == (MouseView { in_window: true, ..old(self)@ }),
    {
        self.in_window = true;
        proof {
            assert(self@ =~= (MouseView { in_window: true, ..old(self)@ }));
        }
    }

    /// Marks the pointer as having left the client area.
    pub fn on_mouse_leave(&mut self)
        ensures
            final(self)@ == (MouseView { in_window: false, ..old(self)@ }),
    {
        self.in_window = false;
        proof {
            assert(self@ =~= (MouseView { in_window: false, ..old(self)@ }));
        }
    }

    /// Registers the left button as held and queues the event.
    pub fn on_left_pressed(&mut self)
        ensures
            final(self)@ == (MouseView {
                left_pressed: true,
                events: old(self)@.events.push(Event::LeftDown),
                ..old(self)@
            }),
    {
        self.left_pressed = true;
        self.events.push(Event::LeftDown);
        proof {
            assert(self@ =~= (MouseView {
                left_pressed: true,
                events: old(self)@.events.push(Event::LeftDown),
                ..old(self)@
            }));
        }
    }

    /// Registers the left button as released and queues the event.
    pub fn on_left_released(&mut self)
        ensures
            final(self)@ == (MouseView {
                left_pressed: false,
                events: old(self)@.events.push(Event::LeftUp),
                ..old(self)@
            }),
    {
        self.left_pressed = false;
        self.events.push(Event::LeftUp);
        proof {
            assert(self@ =~= (MouseView {
                left_pressed: false,
                events: old(self)@.events.push(Event::LeftUp),
                ..old(self)@
            }));
        }
    }

    /// Registers the right button as held and queues the event.
    pub fn on_right_pressed(&mut self)
        ensures
            final(self)@ == (MouseView {
                right_pressed: true,
                events: old(self)@.events.push(Event::RightDown),
                ..old(self)@
            }),
    {
        self.right_pressed = true;
        self.events.push(Event::RightDown);
        proof {
            assert(self@ =~= (MouseView {
                right_pressed: true,
                events: old(self)@.events.push(Event::RightDown),
                ..old(self)@
            }));
        }
    }

    /// Registers the right button as released and queues the event.
    pub fn on_right_released(&mut self)
        ensures
            final(self)@ == (MouseView {
                right_pressed: false,
                events: old(self)@.events.push(Event::RightUp),
                ..old(self)@
            }),
    {
        self.right_pressed = false;
        self.events.push(Event::RightUp);
        proof {
            assert(self@ =~= (MouseView {
                right_pressed: false,
                events: old(self)@.events.push(Event::RightUp),
                ..old(self)@
            }));
        }
    }

    /// Queues a horizontal wheel event at the given position.
    pub fn on_wheel_delta(&mut self, x: i32, y: i32, delta: i32)
        ensures
            final(self)@ == (MouseView {
                events: old(self)@.events.push(Event::Wheel { x, y, delta }),
                ..old(self)@
            }),
    {
        self.events.push(Event::Wheel { x, y, delta });
        proof {
            assert(self@ =~= (MouseView {
                events: old(self)@.events.push(Event::Wheel { x, y, delta }),
                ..old(self)@
            }));
        }
    }

    /// Removes and returns the oldest queued event, if any.
    pub fn read(&mut self) -> (r: Option<Event>)
        ensures
            old(self)@.events.len() == 0 ==> r is None && final(self)@ == old(self)@,
            old(self)@.events.len() > 0 ==> r == Some(old(self)@.events[0]) && final(self)@ == (
            MouseView { events: old(self)@.events.skip(1), ..old(self)@ }),
    {
        if self.events.is_empty() {
            proof {
                assert(self@ =~= old(self)@);
            }
            None
        } else {
            let event = self.events.remove(0);
            proof {
                assert(self@.events =~= old(self)@.events.skip(1));
                assert(self@ =~= (MouseView { events: old(self)@.events.skip(1), ..old(self)@ }));
            }
            Some(event)
        }
    }
}

} // verus!
