//! A click-through overlay window that stays on top of an X11 desktop, and
//! the state machine of the loop that presents GPU frames into it.

pub mod presentation;
pub mod x11;
