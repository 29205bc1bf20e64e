//! Core of a terminal work-session tracker: the tab navigation state machine,
//! the application lifecycle, the countdown timer state machine, and the
//! dispatch step the runtime loop performs on each event it multiplexes.
//!
//! Everything here is plain state and arithmetic. The surrounding program owns
//! the terminal, the keyboard stream, the render clock and the progress
//! channel; on every event it decodes, it calls into this crate and acts on
//! the returned [`app::LoopAction`].

pub mod app;
pub mod shutdown;
pub mod tabs;
pub mod timer_backend;
