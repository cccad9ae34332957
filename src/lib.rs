//! A single 32-bit counter that can be created with any value, read, and
//! incremented with wraparound.

pub mod counter;
pub mod laws;

pub use counter::HelloCounter;
