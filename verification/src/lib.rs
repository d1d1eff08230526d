//! Centers a window on the monitor that hosts it.
//!
//! The crate holds the decisions of a small interactive tool: which prompt to
//! show, how to read a window's title, how to reconcile the two rectangles
//! the system reports for a window, and where to move the window so that
//! what the user sees ends up in the middle of the monitor's work area.
//! Talking to the operating system is left to the caller, who performs each
//! [`session::Action`] and reports its outcome as a [`session::Event`].

pub mod geometry;
pub mod session;
pub mod status;
pub mod text;
pub mod title;
