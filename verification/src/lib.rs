//! Memory-integrity stress-testing engine.
//!
//! The library fills memory with adversarial bit patterns, re-reads them and
//! reports mismatches.  It offers a multi-threaded CPU path over 64 MiB
//! blocks of RAM and a GPU path that drives compute shaders over a VRAM
//! buffer, both publishing progress into shared [`stats::TestStats`] counters
//! and observing a shared stop flag for cooperative cancellation.

mod channel;
pub mod cpu;
pub mod error;
pub mod gpu;
pub mod patterns;
pub mod stats;
pub mod text;
pub mod timing;
pub mod traits;

pub use patterns::TestPattern;
pub use stats::TestStats;
