//! A transient on-screen-display (OSD) overlay, modelled and verified.
//!
//! The overlay is a small borderless panel shown in the bottom-right corner
//! of the primary monitor. It renders a rounded background, an optional
//! percentage gauge (a ring of radial bars), an optional caption and an
//! optional icon, then disappears after a timed show/fade/destroy sequence.
//!
//! This crate holds the overlay's decision logic: command-line
//! interpretation, display placement, gauge quantization, and the timed
//! lifecycle state machine. The windowing system and the drawing surface
//! live outside the library; they hand plain values in and take plain
//! values (positions, bar counts, alpha levels, actions) back.

pub mod args;
pub mod gauge;
pub mod overlay;
pub mod percent;
pub mod placement;
