//! Core logic of a desktop camera capture application.
//!
//! The library owns the capture state machine: capture mode, camera
//! position, the recording flag, the effective resolution and the last
//! decoded preview frame. Device and file I/O, video encoding and the
//! window toolkit stay outside; the host hands their outcomes to the
//! library as plain values and performs the actions it decides on.

pub mod filename;
pub mod frame;
pub mod session;
