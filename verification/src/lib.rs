//! Device-emulating web-page capture engine.
//!
//! The library resolves a capture request into an effective device profile,
//! plans the strictly ordered sequence of remote-debugging commands and
//! browser operations that apply the profile, classifies command outcomes,
//! and transcodes the captured bitmap into the requested output format.
//! Driving an actual browser session is left to a thin unverified shell that
//! executes the actions this library hands out.

pub mod cdp;
pub mod compression;
pub mod device;
pub mod error;
pub mod format_tran;
pub mod snap;
