//! A verified model of a single-window embedded-browser session.
//!
//! The library owns the decisions of a thin windowing shim: which extended
//! window styles a window is created with, how the embedded browser control
//! is brought up step by step, which content operations are allowed in which
//! state, and how the session state changes on each call. The host windowing
//! system and the browser engine themselves are driven by a separate,
//! unverified layer that reports their outcomes back as plain values.

pub mod session;
pub mod style;
