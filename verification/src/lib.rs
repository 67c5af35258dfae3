//! Geometry, timing and sequencing for a pointer-locating overlay: a short
//! animation of concentric circles centred on the mouse pointer.
//!
//! The crate holds no I/O. It turns a configuration into frames, frames into a
//! playback script, and display-server events into the requests that a client
//! of the windowing protocol has to issue next.

pub mod config;
pub mod frame;
pub mod timing;
pub mod placement;
pub mod command;
pub mod animations;
pub mod session;
