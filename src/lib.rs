//! Host layer for interactive applications: a lock-free audio bridge between
//! a frame-driven producer and a real-time consumer, the per-tick frame
//! driver, and keyboard input normalisation.
mod arith;
pub mod debug;
pub mod driver;
pub mod input;
pub mod keys;
pub mod packed_index;
pub mod ring;
pub mod shared;

pub use debug::{debug_time_millis, debug_time_nanos};
pub use keys::{KeyCode, KeyModifiers};
