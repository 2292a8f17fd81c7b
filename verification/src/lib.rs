//! Admission control for group conversations: a newly joined member is
//! restricted at once, offered a one-time verification challenge, and either
//! restored on successful proof or removed after a grace period.
//!
//! The crate holds the admission-control state machine: the pending-request
//! registry, the timeout-versus-verification race, and the verification
//! callback's transition logic.  Chat-platform calls, HTTP serving and
//! configuration loading live outside the library and hand it plain values.

pub mod admission;
pub mod callback;
pub mod commands;
pub mod config;
pub mod enforcement;
pub mod i18n;
pub mod registry;
pub mod text;
pub mod user;
