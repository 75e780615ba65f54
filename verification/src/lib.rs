//! Host-side dispatch core for a hardware-accelerated fuzzing backend.
//!
//! A target program runs on processing elements of an accelerator card, or
//! on a simulation of one, one input at a time. This crate holds what the
//! host decides on the way: which element a run gets ([`pool`]), what is
//! sent to it ([`dispatch`]), in which order the device is operated and
//! what is made of its answers ([`job`], [`sim`]), and what the fuzzing
//! engine is told ([`host`], [`status`]). The device, the pipes and the
//! engine themselves are operated by the program around this crate, which
//! performs the operations that a run names and hands back their results.

pub mod args;
pub mod codec;
pub mod dispatch;
pub mod duration;
pub mod enumerate;
pub mod error;
pub mod host;
pub mod image;
pub mod job;
pub mod launch;
pub mod memconf;
pub mod pedesc;
pub mod pool;
pub mod runner;
pub mod sim;
pub mod status;
pub mod time_feedback;
