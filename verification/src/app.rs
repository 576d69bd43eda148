//! The application driver: the visibility-gated message-pump scheduler.
//! While the window is not yet visible the driver blocks for one message
//! at a time; once the window is visible it drains the whole queue
//! non-blockingly and only then is a frame rendered. The quit signal is
//! the sole exit path, honoured in the same iteration it is received.

use vstd::prelude::*;

use crate::msg::{Msg, WM_QUIT};
use crate::window::{routed, window_inv, Action, EncodingError, Window, WindowView};

verus! {

/// What one pump iteration decided.
#[derive(Clone, Copy, Debug, PartialEq, Eq, Structural)]
pub enum PumpOutcome {
    /// Not visible, queue empty, no quit pending: the live loop would now
    /// block waiting for the next native message.
    WouldBlock,
    /// Not visible: one message was taken and dispatched.
    Dispatched,
    /// Visible: the queue was fully drained; render one frame now.
    ReadyToRender,
    /// The quit signal was received: the loop returns success.
    Quit,
}

/// How a whole run over a message stream ended.
#[derive(Clone, Copy, Debug, PartialEq, Eq, Structural)]
pub enum RunOutcome {
    /// The quit signal was received.
    Quit,
    /// The stream ran dry before the window became visible: the live loop
    /// would now block waiting for the next native message.
    Blocked,
    /// The stream ran dry with the window visible: the live loop would now
    /// render a frame each iteration while polling for input.
    Idle,
}

/// How draining a message sequence ends: with the quit signal, with the
/// sequence exhausted, or with an encoding error.
#[derive(Clone, Copy, Debug, PartialEq, Eq, Structural)]
pub enum DrainEnd {
    Quit,
    Drained,
    Failed(EncodingError),
}

/// The abstract state of the driver: the window, and whether a quit signal
/// has been posted but not yet synthesized into the queue. The native
/// system delivers a posted quit only once the queue is otherwise empty.
#[verifier::ext_equal]
pub struct AppView {
    pub window: WindowView,
    pub quit_posted: bool,
}

/// The result of dispatching a message sequence in order, stopping at the
/// quit signal or at the first encoding error: the window state reached,
/// the quit-posted flag, what remains of the sequence, and how it ended.
/// A routed [`Action::PostQuit`] sets the quit-posted flag.
pub open spec fn drained(w: WindowView, quit_posted: bool, msgs: Seq<Msg>) -> (
    WindowView,
    bool,
    Seq<Msg>,
    DrainEnd,
)
    decreases msgs.len(),
{
    if msgs.len() == 0 {
        (w, quit_posted, msgs, DrainEnd::Drained)
    } else {
        let m = msgs[0];
        let rest = msgs.skip(1);
        if m.code == WM_QUIT {
            (w, quit_posted, rest, DrainEnd::Quit)
        } else {
            match routed(w, m.code, m.wparam, m.lparam) {
                None => (
                    w,
                    quit_posted,
                    rest,
                    DrainEnd::Failed(EncodingError { code: m.code, param: m.wparam }),
                ),
                Some(p) => drained(p.0, quit_posted || p.1 == Action::PostQuit, rest),
            }
        }
    }
}

/// Law: draining preserves the window invariant.
pub proof fn lemma_drained_preserves_inv(w: WindowView, quit_posted: bool, msgs: Seq<Msg>)
    requires
        window_inv(w),
    ensures
        window_inv(drained(w, quit_posted, msgs).0),
    decreases msgs.len(),
{
    if msgs.len() > 0 {
        let m = msgs[0];
        if m.code != WM_QUIT {
            match routed(w, m.code, m.wparam, m.lparam) {
                None => {},
                Some(p) => {
                    crate::window::lemma_routed_preserves_inv(w, m.code, m.wparam, m.lparam);
                    lemma_drained_preserves_inv(
                        p.0,
                        quit_posted || p.1 == Action::PostQuit,
                        msgs.skip(1),
                    );
                },
            }
        }
    }
}

/// Law: draining never takes visibility away.
pub proof fn lemma_drained_preserves_visible(w: WindowView, quit_posted: bool, msgs: Seq<Msg>)
    ensures
        w.visible ==> drained(w, quit_posted, msgs).0.visible,
    decreases msgs.len(),
{
    if msgs.len() > 0 {
        let m = msgs[0];
        if m.code != WM_QUIT {
            match routed(w, m.code, m.wparam, m.lparam) {
                None => {},
                Some(p) => {
                    crate::window::lemma_routed_preserves_visible(w, m.code, m.wparam, m.lparam);
                    lemma_drained_preserves_visible(
                        p.0,
                        quit_posted || p.1 == Action::PostQuit,
                        msgs.skip(1),
                    );
                },
            }
        }
    }
}

/// The application driver: owns the window and runs the scheduling
/// decisions of the message-pump loop.
pub struct App {
    window: Window,
    quit_posted: bool,
}

impl View for App {
    type V = AppView;

    closed spec fn view(&self) -> AppView {
        AppView { window: self.window@, quit_posted: self.quit_posted }
    }
}

impl App {
    /// A fresh driver around a default window.
    pub fn new() -> (a: App)
        ensures
            a@ == (AppView {
                window: crate::window::initial_window(800, 600, "-"@),
                quit_posted: false,
            }),
    {
        let a = App { window: Window::new(800, 600, "-"), quit_posted: false };
        proof {
            assert(a@ =~= (AppView {
                window: crate::window::initial_window(800, 600, "-"@),
                quit_posted: false,
            }));
        }
        a
    }

    /// Read access to the window.
    pub fn window(&self) -> (r: &Window)
        ensures
            r@ == self@.window,
    {
        &self.window
    }

    /// Records that window initialization completed: the surface is
    /// attached, configured to the window's dimensions. This is the one
    /// transition the platform layer performs outside the pump.
    pub fn attach_surface(&mut self)
        requires
            0 < old(self)@.window.width,
            0 < old(self)@.window.height,
        ensures
            final(self)@ == (AppView {
                window: WindowView {
                    gfx: Some(crate::window::SurfaceConfig {
                        width: old(self)@.window.width as u32,
                        height: old(self)@.window.height as u32,
                    }),
                    ..old(self)@.window
                },
                quit_posted: old(self)@.quit_posted,
            }),
    {
        self.window.attach_surface();
        proof {
            assert(self@ =~= (AppView {
                window: WindowView {
                    gfx: Some(crate::window::SurfaceConfig {
                        width: old(self)@.window.width as u32,
                        height: old(self)@.window.height as u32,
                    }),
                    ..old(self)@.window
                },
                quit_posted: old(self)@.quit_posted,
            }));
        }
    }

    /// One iteration of the control loop over the pending native queue.
    ///
    /// Not yet visible: take at most one message — the quit signal returns
    /// [`PumpOutcome::Quit`] at once, anything else is dispatched. Visible:
    /// dispatch the whole queue in order, then report quit (if the quit
    /// signal arrived or was posted) or readiness to render.
    ///
    /// Law: a render is only ever reported with the queue fully drained.
    /// Law: the quit signal ends the iteration in which it is received.
    pub fn pump_iteration(&mut self, queue: &mut Vec<Msg>) -> (r: Result<
        PumpOutcome,
        EncodingError,
    >)
        ensures
            ({
                let pre = old(self)@;
                let q0 = old(queue)@;
                if !pre.window.visible {
                    if q0.len() == 0 {
                        &&& final(self)@ == pre
                        &&& final(queue)@ == q0
                        &&& r == Ok::<PumpOutcome, EncodingError>(
                            if pre.quit_posted {
                                PumpOutcome::Quit
                            } else {
                                PumpOutcome::WouldBlock
                            },
                        )
                    } else if q0[0].code == WM_QUIT {
                        &&& final(self)@ == pre
                        &&& final(queue)@ == q0.skip(1)
                        &&& r == Ok::<PumpOutcome, EncodingError>(PumpOutcome::Quit)
                    } else {
                        match routed(pre.window, q0[0].code, q0[0].wparam, q0[0].lparam) {
                            Some(p) => {
                                &&& final(self)@ == (AppView {
                                    window: p.0,
                                    quit_posted: pre.quit_posted || p.1 == Action::PostQuit,
                                })
                                &&& final(queue)@ == q0.skip(1)
                                &&& r == Ok::<PumpOutcome, EncodingError>(PumpOutcome::Dispatched)
                            },
                            None => {
                                &&& final(self)@ == pre
                                &&& final(queue)@ == q0.skip(1)
                                &&& r == Err::<PumpOutcome, EncodingError>(EncodingError {
                                    code: q0[0].code,
                                    param: q0[0].wparam,
                                })
                            },
                        }
                    }
                } else {
                    let d = drained(pre.window, pre.quit_posted, q0);
                    &&& final(self)@ == (AppView { window: d.0, quit_posted: d.1 })
                    &&& final(queue)@ == d.2
                    &&& match d.3 {
                        DrainEnd::Quit => r == Ok::<PumpOutcome, EncodingError>(PumpOutcome::Quit),
                        DrainEnd::Drained => r == Ok::<PumpOutcome, EncodingError>(
                            if d.1 {
                                PumpOutcome::Quit
                            } else {
                                PumpOutcome::ReadyToRender
                            },
                        ),
                        DrainEnd::Failed(e) => r == Err::<PumpOutcome, EncodingError>(e),
                    }
                }
            }),
            r == Ok::<PumpOutcome, EncodingError>(PumpOutcome::ReadyToRender) ==> final(queue)@.len()
                == 0 && old(self)@.window.visible && !final(self)@.quit_posted,
    {
        if !self.window.visible() {
            if queue.len() == 0 {
                if self.quit_posted {
                    Ok(PumpOutcome::Quit)
                } else {
                    Ok(PumpOutcome::WouldBlock)
                }
            } else {
                let m = queue.remove(0);
                proof {
                    assert(queue@ =~= old(queue)@.skip(1));
                }
                if m.code == WM_QUIT {
                    Ok(PumpOutcome::Quit)
                } else {
                    match self.window.handle_message(m.code, m.wparam, m.lparam) {
                        Ok(a) => {
                            if a == Action::PostQuit {
                                self.quit_posted = true;
                            }
                            proof {
                                assert(self@ =~= (AppView {
                                    window: self@.window,
                                    quit_posted: self@.quit_posted,
                                }));
                            }
                            Ok(PumpOutcome::Dispatched)
                        },
                        Err(e) => Err(e),
                    }
                }
            }
        } else {
            while queue.len() > 0
                invariant
                    old(self)@.window.visible,
                    drained(old(self)@.window, old(self)@.quit_posted, old(queue)@) == drained(
                        self@.window,
                        self@.quit_posted,
                        queue@,
                    ),
                decreases queue@.len(),
            {
                let ghost pre_window = self@.window;
                let ghost pre_posted = self@.quit_posted;
                let ghost pre_queue = queue@;
                let m = queue.remove(0);
                proof {
                    assert(queue@ =~= pre_queue.skip(1));
                }
                if m.code == WM_QUIT {
                    proof {
                        assert(drained(pre_window, pre_posted, pre_queue) == (
                            pre_window,
                            pre_posted,
                            pre_queue.skip(1),
                            DrainEnd::Quit,
                        ));
                        assert(self@ =~= (AppView { window: pre_window, quit_posted: pre_posted }));
                    }
                    return Ok(PumpOutcome::Quit);
                }
                match self.window.handle_message(m.code, m.wparam, m.lparam) {
                    Ok(a) => {
                        if a == Action::PostQuit {
                            self.quit_posted = true;
                        }
                        proof {
                            assert(drained(pre_window, pre_posted, pre_queue) == drained(
                                self@.window,
                                self@.quit_posted,
                                queue@,
                            ));
                        }
                    },
                    Err(e) => {
                        proof {
                            assert(drained(pre_window, pre_posted, pre_queue) == (
                                pre_window,
                                pre_posted,
                                pre_queue.skip(1),
                                DrainEnd::Failed(EncodingError { code: m.code, param: m.wparam }),
                            ));
                            assert(self@ =~= (AppView {
                                window: pre_window,
                                quit_posted: pre_posted,
                            }));
                        }
                        return Err(e);
                    },
                }
            }
            proof {
                assert(drained(self@.window, self@.quit_posted, queue@) == (
                    self@.window,
                    self@.quit_posted,
                    queue@,
                    DrainEnd::Drained,
                ));
                assert(self@ =~= (AppView {
                    window: self@.window,
                    quit_posted: self@.quit_posted,
                }));
            }
            if self.quit_posted {
                Ok(PumpOutcome::Quit)
            } else {
                Ok(PumpOutcome::ReadyToRender)
            }
        }
    }

    /// Runs the control loop over a whole message stream: blocking-style
    /// one-at-a-time dispatch until the window becomes visible, then
    /// drain-then-render scheduling, until the quit signal or the end of
    /// the stream. The messages are dispatched strictly in order whatever
    /// the mode, so the outcome is the drain of the stream.
    pub fn run(&mut self, queue: &mut Vec<Msg>) -> (r: Result<RunOutcome, EncodingError>)
        ensures
            ({
                let d = drained(old(self)@.window, old(self)@.quit_posted, old(queue)@);
                &&& final(self)@ == (AppView { window: d.0, quit_posted: d.1 })
                &&& final(queue)@ == d.2
                &&& match d.3 {
                    DrainEnd::Quit => r == Ok::<RunOutcome, EncodingError>(RunOutcome::Quit),
                    DrainEnd::Drained => r == Ok::<RunOutcome, EncodingError>(
                        if d.1 {
                            RunOutcome::Quit
                        } else if d.0.visible {
                            RunOutcome::Idle
                        } else {
                            RunOutcome::Blocked
                        },
                    ),
                    DrainEnd::Failed(e) => r == Err::<RunOutcome, EncodingError>(e),
                }
            }),
            r == Ok::<RunOutcome, EncodingError>(RunOutcome::Idle) ==> final(queue)@.len() == 0,
    {
        loop
            invariant
                drained(old(self)@.window, old(self)@.quit_posted, old(queue)@) == drained(
                    self@.window,
                    self@.quit_posted,
                    queue@,
                ),
            decreases queue@.len(),
        {
            let ghost pre_window = self@.window;
            let ghost pre_posted = self@.quit_posted;
            let ghost pre_queue = queue@;
            let ghost pre_visible = self@.window.visible;
            match self.pump_iteration(queue) {
                Ok(PumpOutcome::Quit) => {
                    proof {
                        if !pre_visible {
                            if pre_queue.len() == 0 {
                                assert(drained(pre_window, pre_posted, pre_queue) == (
                                    pre_window,
                                    pre_posted,
                                    pre_queue,
                                    DrainEnd::Drained,
                                ));
                            } else {
                                assert(drained(pre_window, pre_posted, pre_queue) == (
                                    pre_window,
                                    pre_posted,
                                    pre_queue.skip(1),
                                    DrainEnd::Quit,
                                ));
                            }
                            assert(self@ =~= (AppView {
                                window: pre_window,
                                quit_posted: pre_posted,
                            }));
                        }
                    }
                    return Ok(RunOutcome::Quit);
                },
                Ok(PumpOutcome::WouldBlock) => {
                    proof {
                        assert(drained(pre_window, pre_posted, pre_queue) == (
                            pre_window,
                            pre_posted,
                            pre_queue,
                            DrainEnd::Drained,
                        ));
                        assert(self@ =~= (AppView { window: pre_window, quit_posted: pre_posted }));
                    }
                    return Ok(RunOutcome::Blocked);
                },
                Ok(PumpOutcome::ReadyToRender) => {
                    proof {
                        lemma_drained_preserves_visible(pre_window, pre_posted, pre_queue);
                    }
                    return Ok(RunOutcome::Idle);
                },
                Ok(PumpOutcome::Dispatched) => {
                    proof {
                        assert(drained(pre_window, pre_posted, pre_queue) == drained(
                            self@.window,
                            self@.quit_posted,
                            queue@,
                        ));
                    }
                },
                Err(e) => {
                    proof {
                        if !pre_visible {
                            assert(drained(pre_window, pre_posted, pre_queue) == (
                                pre_window,
                                pre_posted,
                                pre_queue.skip(1),
                                DrainEnd::Failed(e),
                            ));
                            assert(self@ =~= (AppView {
                                window: pre_window,
                                quit_posted: pre_posted,
                            }));
                        }
                    }
                    return Err(e);
                },
            }
        }
    }
}

} // verus!
