//! Logic of a desktop chat overlay: a translucent, always-on-top window that
//! shows the most recent lines of a live chat, fed by a periodic poll, and
//! that the user can drag around the screen.
//!
//! The library decides; it performs no I/O. A shell around it owns the
//! window, the network and the timers, feeds events in and carries out the
//! commands that come back.

pub mod chat;
pub mod pointer;
pub mod poll;
pub mod render;
pub mod window;
