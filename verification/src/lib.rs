//! Core of a desktop host's coordination with an attached mobile device:
//! connection-lifecycle tracking, carrier-bundle installation gating, and
//! confirmation of installation success by racing a live log-pattern match
//! against a deadline.
//!
//! Everything here is pure decision logic over plain values. The caller
//! owns the device transport, the installer, the timer and the outcome
//! sink; it feeds events in and performs the actions and notifications
//! this core hands back.

pub mod errors;
pub mod filter;
pub mod install;
pub mod monitor;
pub mod notify;
pub mod race;
pub mod stream;
pub mod text;
