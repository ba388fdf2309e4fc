//! Event multiplexing and decoding for Wii Remote controllers.
//!
//! The crate holds the decisions of an asynchronous reactor and of the two
//! streams built on it: which continuation a readiness event resumes, when a
//! stream suspends, yields or ends, and how a raw controller record becomes a
//! typed event. Every operation on a descriptor is left to the caller: a
//! function here takes what the operating system reported and returns the
//! next state together with what to do next.

pub mod device;
pub mod display;
pub mod error;
pub mod events;
pub mod interest;
pub mod keyboard;
pub mod keys;
pub mod monitor;
pub mod reactor;
pub mod stream;
