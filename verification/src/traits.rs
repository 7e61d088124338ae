//! Core traits for memory testing.
//!
//! This module defines the `MemoryTester` trait that memory-testing backends
//! satisfy, together with the configuration and result records a test run
//! exchanges with its caller.

use vstd::prelude::*;

verus! {

use crate::error::FerritestError;
use crate::patterns::TestPattern;
use crate::stats::TestStats;
use core::sync::atomic::AtomicBool;
use std::sync::Arc;
use std::time::Duration;

/// Result of a single test pass.
#[derive(Debug, Clone)]
pub struct TestResult {
    /// Number of bytes tested in this pass.
    pub bytes_tested: u64,
    /// Number of errors found.
    pub errors_found: u64,
    /// The pattern used for this test.
    pub pattern: TestPattern,
    /// Duration of the test in milliseconds.
    pub duration_ms: u64,
}

/// Configuration for a test run.
#[derive(Debug, Clone)]
pub struct TestConfig {
    /// Amount of memory to test in megabytes.
    pub memory_mb: usize,
    /// Patterns to test (defaults to all patterns).
    pub patterns: Vec<TestPattern>,
    /// Whether to run continuously until stopped.
    pub continuous: bool,
    /// Optional timeout duration.
    pub timeout: Option<Duration>,
    /// Number of threads for CPU testing (ignored for GPU).
    pub threads: Option<usize>,
    /// Enable verbose output.
    pub verbose: bool,
}

impl Default for TestConfig {
    /// One gigabyte, every pattern, a single pass, no timeout and a
    /// thread count chosen by the backend.
    fn default() -> (r: Self)
        ensures
            r.memory_mb == 1024,
            r.patterns@ == TestPattern::spec_all_patterns(),
            !r.continuous,
            r.timeout is None,
            r.threads is None,
            !r.verbose,
    {
        TestConfig {
            memory_mb: 1024,
            patterns: TestPattern::all_patterns(),
            continuous: false,
            timeout: None,
            threads: None,
            verbose: false,
        }
    }
}

/// Progress update for UI callbacks.
#[derive(Debug, Clone)]
pub struct ProgressUpdate {
    /// Name of the current pattern being tested.
    pub pattern_name: String,
    /// Bytes processed so far.
    pub bytes_processed: u64,
    /// Total bytes to process.
    pub total_bytes: u64,
    /// Current test pass number.
    pub current_pass: u64,
}

/// Trait for memory testing implementations.
///
/// Backends testing different kinds of memory implement this trait, allowing
/// a caller to select a backend without branching on its internals.
/// `run_tests` holds exclusive backend state, so it is meant to be driven by
/// one caller at a time.
pub trait MemoryTester: Send + Sync {
    /// The fixed name of this backend.
    spec fn spec_name(&self) -> Seq<char>;

    /// The description of the device being tested.
    spec fn spec_device_info(&self) -> Seq<char>;

    /// The maximum testable memory in bytes.
    spec fn spec_max_memory(&self) -> u64;

    /// Returns the name of this tester (e.g., "CPU/RAM", "GPU/VRAM").
    fn name(&self) -> (r: &'static str)
        ensures
            r@ == self.spec_name(),
    ;

    /// Returns information about the device being tested.
    fn device_info(&self) -> (r: String)
        ensures
            r@ == self.spec_device_info(),
    ;

    /// Returns the maximum testable memory in bytes.
    fn max_testable_memory(&self) -> (r: u64)
        ensures
            r == self.spec_max_memory(),
    ;

    /// Runs a complete test suite: every configured pattern per pass,
    /// repeating passes when configured to run continuously, observing the
    /// shared stop flag between patterns and accumulating into the shared
    /// statistics.
    ///
    /// Returns the per-pattern results, or the fatal error that aborted the
    /// run.
    fn run_tests(
        &mut self,
        config: &TestConfig,
        stats: Arc<TestStats>,
        should_stop: Arc<AtomicBool>,
    ) -> Result<Vec<TestResult>, FerritestError>;
}

} // verus!
