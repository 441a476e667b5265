//! Core logic for a buffered real-time audio delivery loop: parameter
//! negotiation, a bounded FIFO staging buffer, the write/poll state machine
//! that keeps a hardware ring buffer fed, and the bounded buffer shared with
//! a signal-generator thread.

pub mod config;
pub mod errors;
pub mod session;
pub mod shared;
pub mod staging;
