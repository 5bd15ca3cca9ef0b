//! Voice-channel presence notices.
//!
//! The crate decides what a change in somebody's voice-channel membership
//! means (a join, a leave, or something that deserves no notice) and builds
//! the notice that is posted to a log channel. It performs no I/O itself:
//! looking up a channel's name and sending the message are left to the
//! caller, who is told what to do next through [`notify::Action`] values and
//! reports back through [`notify::Event`] values.

pub mod classify;
pub mod clock;
pub mod config;
pub mod model;
pub mod notify;
pub mod payload;
pub mod text;
