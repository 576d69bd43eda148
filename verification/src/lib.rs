//! A minimal native-window application core: input state holders, a
//! per-window message router, and the visibility-gated message-pump
//! scheduler that decides, each iteration, whether to block for the next
//! native message or to drain the queue and render a frame.
//!
//! Everything here works on plain values (message codes and packed
//! parameter words); the platform calls that produce those values, and the
//! graphics calls that the router's decisions drive, live outside this
//! crate.

pub mod app;
pub mod keyboard;
pub mod mouse;
pub mod msg;
pub mod window;
