//! A minimal terminal countdown timer ("pomodoro") library.
//!
//! The library holds the verified core of the tool: parsing the
//! command-line tokens into a [`config::RunConfiguration`], deriving a
//! completion percentage and the running/done decision each tick
//! ([`timer`]), planning the terminal session's setup and teardown
//! ([`session`]), and laying out and describing each frame
//! ([`layout`], [`render`]). Terminal and clock I/O live outside the
//! library, in the binary that drives it.

pub mod config;
pub mod layout;
pub mod render;
pub mod session;
pub mod timer;
