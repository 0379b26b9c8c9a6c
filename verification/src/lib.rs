//! Synchronization and playback-control core for a continuously playing
//! video rendered as an animated desktop background.
//!
//! A decode engine pushes frames from its own callback context; a render
//! loop pulls at a fixed cadence.  This crate holds the verified logic that
//! bridges the two: a single-slot frame buffer with a dirty flag, a playback
//! state machine that turns decode-engine bus messages into rewind/stop/halt
//! decisions, a coordinator that keeps the surface size consistent, a
//! fixed-timestep cadence driver, and a host that composes them.
//!
//! Everything that talks to the outside world (the decode pipeline, the
//! presentation surface, the window system, the clock) lives outside this
//! crate and hands plain values in: drained bus messages, decoded frame
//! bytes, rewind and resize outcomes, and elapsed time.

pub mod frame_bridge;
pub mod frame_mgr;
pub mod host;
pub mod playback;
pub mod session;
pub mod surface;
