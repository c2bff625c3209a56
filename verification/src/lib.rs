//! Real-time acoustic echo cancellation: the sample routing, the adaptive filter, the
//! band-shaping filters and the scheduling decisions of the processing thread.
//!
//! Samples travel as IEEE 754 binary32 bit patterns. Whatever rounds is asked of an
//! arithmetic unit that the caller hands in; see [`arith`].

pub mod arith;
pub mod channel;
pub mod delay;
pub mod engine;
pub mod filter;
pub mod nlmf;
pub mod processing;
pub mod scheduler;
