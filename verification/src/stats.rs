//! Statistics tracking for memory testing.
//!
//! This module provides thread-safe statistics tracking using atomic
//! operations.  The three counters are independent and monotonically
//! increasing; they are updated with relaxed ordering, so no consistency
//! across counters is promised, only eventual visibility of each one.
//! Because the counters may be bumped by any number of concurrent threads,
//! no contract can pin the value a load observes.

use vstd::prelude::*;

verus! {

use core::sync::atomic::AtomicU64;
use core::sync::atomic::Ordering;

/// Thread-safe statistics tracker for memory testing.
///
/// Uses atomic operations for lock-free concurrent updates from multiple
/// threads.
pub struct TestStats {
    /// Total bytes written and re-read so far (relaxed ordering).
    bytes_tested: AtomicU64,
    /// Total mismatches detected so far (relaxed ordering).
    errors_found: AtomicU64,
    /// Total (pattern, block) units completed so far (relaxed ordering).
    tests_completed: AtomicU64,
}

impl TestStats {
    /// Creates a new `TestStats` instance with all counters at zero.
    pub fn new() -> Self {
        TestStats {
            bytes_tested: AtomicU64::new(0),
            errors_found: AtomicU64::new(0),
            tests_completed: AtomicU64::new(0),
        }
    }

    /// Adds the specified number of bytes to the bytes-tested counter,
    /// wrapping on overflow.
    pub fn add_bytes(&self, bytes: u64) {
        self.bytes_tested.fetch_add(bytes, Ordering::Relaxed);
    }

    /// Increments the error counter by one, wrapping on overflow.
    pub fn add_error(&self) {
        self.errors_found.fetch_add(1, Ordering::Relaxed);
    }

    /// Increments the test counter by one, wrapping on overflow.
    pub fn add_test(&self) {
        self.tests_completed.fetch_add(1, Ordering::Relaxed);
    }

    /// Returns the total number of bytes tested.
    pub fn get_bytes(&self) -> u64 {
        self.bytes_tested.load(Ordering::Relaxed)
    }

    /// Returns the total number of errors found.
    pub fn get_errors(&self) -> u64 {
        self.errors_found.load(Ordering::Relaxed)
    }

    /// Returns the total number of tests completed.
    pub fn get_tests(&self) -> u64 {
        self.tests_completed.load(Ordering::Relaxed)
    }
}

impl Default for TestStats {
    fn default() -> Self {
        Self::new()
    }
}

} // verus!
