//! Verified core of the WinlatorXR bridge.
pub mod actions;
pub mod clock;
pub mod controls;
pub mod paths;
pub mod runtime;
pub mod text;
pub mod tracking;
pub mod wire;
pub mod xr;
