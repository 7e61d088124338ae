//! CPU/RAM memory testing implementation.
//!
//! This module provides multi-threaded CPU memory testing using the test
//! patterns defined in the patterns module.  Requested memory is divided
//! into fixed-size blocks spread over worker threads; each thread owns its
//! blocks exclusively and sweeps every pattern over them, so the only shared
//! state is the statistics counters, the stop flag and a bounded
//! error-reporting channel.  Spawning and joining the worker threads is
//! plumbing left to the binary around the library; this module provides the
//! partition arithmetic, the per-thread sweep and the collector it drives.

use vstd::prelude::*;

verus! {

use crate::channel::channel_recv;
use crate::channel::channel_send;
use crate::patterns::TestPattern;
use crate::patterns::lemma_fill_then_verify_ok;
use crate::patterns::lemma_verify_err_range;
use crate::patterns::spec_fill;
use crate::stats::TestStats;
use crate::text::dec_string;
use crate::text::spec_dec;
use core::sync::atomic::AtomicBool;
use core::sync::atomic::Ordering;
use crossbeam::channel::Receiver;
use crossbeam::channel::Sender;
use std::sync::Arc;
use rand::Rng;
use std::time::Duration;
use vstd::string::StringExecFns;

/// Block size for memory testing (64 MB).
pub const BLOCK_SIZE: usize = 64 * 1024 * 1024;

/// Number of random reads issued against a block between the two
/// verification sweeps.
pub const STRESS_READS: usize = 1000;

/// Information about a detected memory error during CPU testing.
#[derive(Debug)]
pub struct CpuMemoryError {
    /// The test pattern that detected the error.
    pub pattern: TestPattern,
    /// Word offset within the block where the error was detected.
    pub offset: usize,
    /// Thread ID that detected the error.
    pub thread_id: usize,
}

/// CPU memory tester configuration.
#[derive(Debug, Clone)]
pub struct CpuTesterConfig {
    /// Amount of memory to test in megabytes.
    pub memory_mb: usize,
    /// Number of threads (defaults to CPU count if None).
    pub threads: Option<usize>,
    /// Run continuously until stopped.
    pub continuous: bool,
    /// Optional timeout duration.
    pub timeout: Option<Duration>,
    /// Enable verbose output.
    pub verbose: bool,
}

impl Default for CpuTesterConfig {
    /// One gigabyte, a thread per logical core, a single pass, no timeout.
    fn default() -> (r: Self)
        ensures
            r.memory_mb == 1024,
            r.threads is None,
            !r.continuous,
            r.timeout is None,
            !r.verbose,
    {
        CpuTesterConfig {
            memory_mb: 1024,
            threads: None,
            continuous: false,
            timeout: None,
            verbose: false,
        }
    }
}

/// Relies on `num_cpus::get`: the number of logical cores, which is always
/// at least one.
#[verifier::external_body]
fn cpu_count() -> (n: usize)
    ensures
        1 <= n,
{
    num_cpus::get()
}

/// Relies on `rand::thread_rng` and `rand::Rng::gen_range`: a random index
/// below `bound`.  The value depends on the generator's state, so only its
/// range is promised.
#[verifier::external_body]
fn random_below(bound: usize) -> (r: usize)
    requires
        1 <= bound,
    ensures
        r < bound,
{
    rand::thread_rng().gen_range(0..bound)
}

/// The number of whole or partial blocks that cover the requested megabytes.
pub open spec fn spec_total_blocks(memory_mb: nat) -> nat {
    spec_ceil_div(memory_mb * 1024 * 1024, BLOCK_SIZE as nat)
}

/// How many blocks each of `threads` workers receives: the total block
/// count divided among the threads, rounded up.
pub open spec fn spec_blocks_per_thread(memory_mb: nat, threads: nat) -> nat {
    spec_ceil_div(spec_total_blocks(memory_mb), threads)
}

/// The quotient rounded towards positive infinity.
pub open spec fn spec_ceil_div(a: nat, b: nat) -> nat {
    a / b + if a % b == 0 {
        0
    } else {
        1nat
    }
}

/// The quotient rounded up, computed without overflow.
fn ceil_div(a: usize, b: usize) -> (r: usize)
    requires
        1 <= b,
    ensures
        r == spec_ceil_div(a as nat, b as nat),
{
    if a % b == 0 {
        a / b
    } else {
        proof {
            assert(b != 1) by (nonlinear_arith)
                requires
                    a % b != 0,
            ;
            assert(a / b < a) by (nonlinear_arith)
                requires
                    2 <= b,
                    a % b != 0,
            ;
        }
        a / b + 1
    }
}

/// Rounding up to whole blocks and then to whole threads never loses
/// requested memory: the blocks handed to the workers cover at least the
/// requested megabytes, and their total is a multiple of the per-thread
/// share.
pub proof fn lemma_partition_covers_request(memory_mb: nat, threads: nat)
    requires
        1 <= threads,
    ensures
        spec_blocks_per_thread(memory_mb, threads) * threads * (BLOCK_SIZE as nat) >= memory_mb
            * 1024 * 1024,
        spec_blocks_per_thread(memory_mb, threads) * threads >= spec_total_blocks(memory_mb),
        (spec_blocks_per_thread(memory_mb, threads) * threads * 64) % (threads * 64) == 0,
{
    let bytes = memory_mb * 1024 * 1024;
    let total = spec_total_blocks(memory_mb);
    let per = spec_blocks_per_thread(memory_mb, threads);
    assert(total * (BLOCK_SIZE as nat) >= bytes) by (nonlinear_arith)
        requires
            total == spec_ceil_div(bytes, BLOCK_SIZE as nat),
            bytes >= 0,
    ;
    assert(per * threads >= total) by (nonlinear_arith)
        requires
            per == spec_ceil_div(total, threads),
            1 <= threads,
            total >= 0,
    ;
    assert(per * threads * (BLOCK_SIZE as nat) >= total * (BLOCK_SIZE as nat)) by (nonlinear_arith)
        requires
            per * threads >= total,
    ;
    vstd::arithmetic::div_mod::lemma_mod_multiples_basic(per as int, threads as int * 64);
    assert(per * threads * 64 == per * (threads * 64)) by (nonlinear_arith);
}

/// Computes how many blocks each of `threads` worker threads receives:
/// the requested megabytes rounded up to whole blocks, divided among the
/// threads, rounded up again.
pub fn blocks_per_thread(memory_mb: usize, threads: usize) -> (r: usize)
    requires
        1 <= threads,
        memory_mb * 1024 * 1024 <= usize::MAX,
    ensures
        r == spec_blocks_per_thread(memory_mb as nat, threads as nat),
{
    ceil_div(ceil_div(memory_mb * 1024 * 1024, BLOCK_SIZE), threads)
}

/// Computes the memory actually tested, in megabytes: every thread's share
/// of whole blocks.  It is at least the requested amount and a multiple of
/// (thread count × block megabytes).
pub fn actual_memory_mb(memory_mb: usize, threads: usize) -> (r: usize)
    requires
        1 <= threads,
        memory_mb * 1024 * 1024 <= usize::MAX,
        spec_blocks_per_thread(memory_mb as nat, threads as nat) * threads * (BLOCK_SIZE as nat)
            <= usize::MAX,
    ensures
        r == spec_blocks_per_thread(memory_mb as nat, threads as nat) * threads * 64,
        memory_mb <= r,
{
    let per = blocks_per_thread(memory_mb, threads);
    proof {
        lemma_partition_covers_request(memory_mb as nat, threads as nat);
        assert(per * threads <= per * threads * (BLOCK_SIZE as nat)) by (nonlinear_arith)
            requires
                per >= 0,
                threads >= 0,
        ;
        assert(per * threads * BLOCK_SIZE == (per * threads) * BLOCK_SIZE);
        assert((per * threads * (BLOCK_SIZE as nat)) / 1048576 == per * threads * 64)
            by (nonlinear_arith)
            requires
                BLOCK_SIZE == 67108864,
        ;
        assert(memory_mb * 1024 * 1024 <= per * threads * (BLOCK_SIZE as nat));
        assert(memory_mb <= per * threads * 64) by (nonlinear_arith)
            requires
                memory_mb * 1024 * 1024 <= per * threads * (BLOCK_SIZE as nat),
                BLOCK_SIZE == 67108864,
        ;
    }
    per * threads * (BLOCK_SIZE / (1024 * 1024))
}

/// Drains the error-reporting channel until every sender is gone, returning
/// everything the workers reported.
pub fn collect_errors(error_rx: &Receiver<CpuMemoryError>) -> (errors: Vec<CpuMemoryError>) {
    let mut errors: Vec<CpuMemoryError> = Vec::new();
    let mut fuel: u64 = u64::MAX;
    while 0 < fuel
        decreases fuel,
    {
        match channel_recv(error_rx) {
            Some(e) => errors.push(e),
            None => { return errors; },
        }
        fuel = fuel - 1;
    }
    errors
}

/// CPU/RAM memory tester.
///
/// Tests system RAM using multiple threads, each testing a portion of
/// memory with various bit patterns.
pub struct CpuTester {
    config: CpuTesterConfig,
    num_threads: usize,
}

impl CpuTester {
    /// The number of worker threads this tester will run.
    pub closed spec fn spec_num_threads(&self) -> usize {
        self.num_threads
    }

    /// The configuration this tester was built from.
    pub closed spec fn spec_config(&self) -> CpuTesterConfig {
        self.config
    }

    /// Creates a new CPU tester with the given configuration.
    ///
    /// The thread count comes from the configuration, or from the number of
    /// logical cores when the configuration leaves it open.
    pub fn new(config: CpuTesterConfig) -> (r: Self)
        requires
            config.threads matches Some(t) ==> 1 <= t,
        ensures
            1 <= r.spec_num_threads(),
            r.spec_config() == config,
            config.threads matches Some(t) ==> r.spec_num_threads() == t,
    {
        let num_threads = match config.threads {
            Some(t) => t,
            None => cpu_count(),
        };
        CpuTester { config, num_threads }
    }

    /// Returns the name of this tester.
    pub fn name(&self) -> (r: &'static str)
        ensures
            r@ == "CPU/RAM"@,
    {
        "CPU/RAM"
    }

    /// Returns information about the device being tested: the thread count
    /// and the block size in megabytes.
    pub fn device_info(&self) -> (r: String)
        ensures
            r@ == spec_dec(self.spec_num_threads() as nat) + " threads, "@ + spec_dec(
                (BLOCK_SIZE as nat) / (1024 * 1024),
            ) + " MB block size"@,
    {
        let mut s = dec_string(self.num_threads as u64);
        s.append(" threads, ");
        s.append(dec_string((BLOCK_SIZE / (1024 * 1024)) as u64).as_str());
        s.append(" MB block size");
        s
    }

    /// Returns the number of threads used for testing.
    pub fn num_threads(&self) -> (r: usize)
        ensures
            r == self.spec_num_threads(),
    {
        self.num_threads
    }

}

/// Tests a single memory block with the given pattern: fill, verify, random
/// stress reads, verify again.
///
/// The block is left holding exactly the pattern's contents, so in the
/// verifier's model of memory, where a written word reads back unchanged,
/// both verification sweeps succeed and no error is reported: the result is
/// `None` and one completed test is counted.  The comparisons still run at
/// run time, where faulty hardware can contradict the model; that path
/// reports the first mismatching word offset, the pattern and the detecting
/// thread, and counts one error.
pub fn test_memory_block(
    block: &mut Vec<u64>,
    pattern: TestPattern,
    seed: u64,
    thread_id: usize,
    stats: &TestStats,
) -> (r: Option<CpuMemoryError>)
    requires
        1 <= old(block)@.len(),
        old(block)@.len() * 8 <= usize::MAX,
    ensures
        final (block)@ == spec_fill(pattern, seed, old(block)@.len() as nat),
        final (block)@.len() == old(block)@.len(),
        r is None,
        r matches Some(e) ==> e.pattern == pattern && e.thread_id == thread_id && e.offset < old(
            block,
        )@.len(),
{
    let ghost len = old(block)@.len() as nat;
    pattern.fill_block(block, seed);

    stats.add_bytes((block.len() * 8) as u64);

    if let Err(offset) = pattern.verify_block(block, seed) {
        proof {
            lemma_fill_then_verify_ok(pattern, seed, len);
            lemma_verify_err_range(pattern, seed, block@, 0);
        }
        stats.add_error();
        return Some(CpuMemoryError { pattern, offset, thread_id });
    }

    // Random access test to stress the memory.
    let block_len = block.len();
    let mut read: usize = 0;
    while read < STRESS_READS
        invariant
            block@.len() == block_len,
            1 <= block_len,
            block@ == spec_fill(pattern, seed, len),
        decreases STRESS_READS - read,
    {
        let idx = random_below(block_len);
        let _read = block[idx];
        read = read + 1;
    }

    if let Err(offset) = pattern.verify_block(block, seed) {
        proof {
            lemma_fill_then_verify_ok(pattern, seed, len);
            lemma_verify_err_range(pattern, seed, block@, 0);
        }
        stats.add_error();
        return Some(CpuMemoryError { pattern, offset, thread_id });
    }

    stats.add_test();
    None
}

/// The seed for one (thread, block, iteration) unit: the three indices are
/// packed into disjoint bit fields of the 64-bit seed (20 bits of thread,
/// 20 bits of block, 24 bits of iteration), so no two units of a run draw
/// the same random-pattern stream; see [`lemma_block_seed_injective`].
pub open spec fn spec_block_seed(thread_id: u64, block_idx: u64, iteration: u64) -> u64 {
    ((thread_id & 0xF_FFFF) << 44) | ((block_idx & 0xF_FFFF) << 24) | (iteration & 0xFF_FFFF)
}

/// Computes the seed for one (thread, block, iteration) unit.
pub fn block_seed(thread_id: usize, block_idx: usize, iteration: u64) -> (r: u64)
    ensures
        r == spec_block_seed(thread_id as u64, block_idx as u64, iteration),
{
    ((thread_id as u64 & 0xF_FFFF) << 44) | ((block_idx as u64 & 0xF_FFFF) << 24) | (iteration
        & 0xFF_FFFF)
}

/// No two (thread, block, iteration) units share a random-pattern seed: the
/// packing is injective for up to a million threads, a million blocks per
/// thread and sixteen million passes.
pub proof fn lemma_block_seed_injective(t1: u64, b1: u64, i1: u64, t2: u64, b2: u64, i2: u64)
    requires
        t1 < 0x10_0000,
        t2 < 0x10_0000,
        b1 < 0x10_0000,
        b2 < 0x10_0000,
        i1 < 0x100_0000,
        i2 < 0x100_0000,
        spec_block_seed(t1, b1, i1) == spec_block_seed(t2, b2, i2),
    ensures
        t1 == t2,
        b1 == b2,
        i1 == i2,
{
    assert(t1 == t2 && b1 == b2 && i1 == i2) by (bit_vector)
        requires
            t1 < 0x10_0000,
            t2 < 0x10_0000,
            b1 < 0x10_0000,
            b2 < 0x10_0000,
            i1 < 0x100_0000,
            i2 < 0x100_0000,
            ((t1 & 0xF_FFFF) << 44) | ((b1 & 0xF_FFFF) << 24) | (i1 & 0xFF_FFFF) == ((t2
                & 0xF_FFFF) << 44) | ((b2 & 0xF_FFFF) << 24) | (i2 & 0xFF_FFFF),
    ;
}

/// Worker thread that tests memory blocks.
///
/// Allocates its own zero-filled blocks, then sweeps every pattern over
/// every block, reporting the first detected mismatch through the channel,
/// requesting a global stop and returning.  The stop flag is observed at
/// pattern and block boundaries, never mid-block.  A single pass is made
/// unless `continuous` is set.
pub fn worker_thread(
    thread_id: usize,
    blocks_per_thread: usize,
    stats: Arc<TestStats>,
    should_stop: Arc<AtomicBool>,
    error_tx: Sender<CpuMemoryError>,
    continuous: bool,
)
{
    let block_words: usize = BLOCK_SIZE / 8;
    let mut blocks: Vec<Vec<u64>> = Vec::new();
    let mut b: usize = 0;
    while b < blocks_per_thread
        invariant
            block_words == BLOCK_SIZE / 8,
            blocks@.len() == b,
            b <= blocks_per_thread,
            forall|k: int| 0 <= k < b ==> (#[trigger] blocks@[k])@.len() == BLOCK_SIZE / 8,
        decreases blocks_per_thread - b,
    {
        let fresh = new_block(block_words);
        blocks.push(fresh);
        proof {
            assert(blocks@[b as int]@.len() == BLOCK_SIZE / 8);
        }
        b = b + 1;
    }

    let patterns = TestPattern::all_patterns();
    let mut iteration: u64 = 0;
    while iteration < u64::MAX
        invariant
            blocks@.len() == blocks_per_thread,
            forall|k: int|
                0 <= k < blocks_per_thread ==> (#[trigger] blocks@[k])@.len() == BLOCK_SIZE / 8,
            patterns@.len() == 8,
        decreases u64::MAX - iteration,
    {
        if should_stop.load(Ordering::Relaxed) {
            return ;
        }

        let mut p: usize = 0;
        while p < patterns.len()
            invariant
                blocks@.len() == blocks_per_thread,
                forall|k: int|
                    0 <= k < blocks_per_thread ==> (#[trigger] blocks@[k])@.len() == BLOCK_SIZE / 8,
                patterns@.len() == 8,
                p <= patterns@.len(),
            decreases patterns@.len() - p,
        {
            if should_stop.load(Ordering::Relaxed) {
                break ;
            }
            let pattern = patterns[p];

            let mut block_idx: usize = 0;
            while block_idx < blocks_per_thread
                invariant
                    blocks@.len() == blocks_per_thread,
                    forall|k: int|
                        0 <= k < blocks_per_thread ==> (#[trigger] blocks@[k])@.len() == BLOCK_SIZE
                            / 8,
                decreases blocks_per_thread - block_idx,
            {
                let seed = block_seed(thread_id, block_idx, iteration);

                let outcome = test_memory_block(
                    &mut blocks[block_idx],
                    pattern,
                    seed,
                    thread_id,
                    &stats,
                );
                if let Some(error) = outcome {
                    // Report the mismatch (if the collector is gone the
                    // report is dropped), request a global stop, and let
                    // this worker finish cleanly.
                    let _ = channel_send(&error_tx, error);
                    should_stop.store(true, Ordering::Relaxed);
                    return ;
                }
                block_idx = block_idx + 1;
            }
            p = p + 1;
        }

        iteration = iteration + 1;

        if !continuous {
            return ;
        }
    }
}

/// Allocates a zero-filled block of `words` 64-bit words.
fn new_block(words: usize) -> (r: Vec<u64>)
    ensures
        r@.len() == words,
        forall|k: int| 0 <= k < words ==> r@[k] == 0u64,
{
    let mut block: Vec<u64> = Vec::new();
    let mut i: usize = 0;
    while i < words
        invariant
            block@.len() == i,
            i <= words,
            forall|k: int| 0 <= k < i ==> block@[k] == 0u64,
        decreases words - i,
    {
        block.push(0);
        i = i + 1;
    }
    block
}

} // verus!
