//! Per-request authentication orchestration of an email-based identity broker.
//!
//! The library validates an authentication request, binds the channel through
//! which later failures are reported to the relying party, and takes every
//! decision of the attempt that follows: rate limiting, which provider bridge
//! runs, how a discovery race is settled, and when a failure falls back to
//! the email loop. Running those steps (I/O, timers, bridges) is left to the
//! caller, which hands each outcome back to the library.
pub mod attempt;
pub mod documents;
pub mod email;
pub mod error;
pub mod flow;
pub mod laws;
pub mod params;
pub mod redirect;
pub mod reply;
pub mod request;
