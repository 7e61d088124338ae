//! GPU memory tester implementation.
//!
//! This module provides the core `GpuTester` struct that orchestrates GPU
//! VRAM memory testing using compute shaders.  The device is driven
//! strictly serially: for each (pattern, seed) unit it writes the shader
//! parameters, zeroes the error record, dispatches the write and verify
//! pipelines, copies the error record to the staging buffer and polls
//! cooperatively until the record can be read back or the configured
//! timeout passes.  One unit is the smallest cancellable step: the stop
//! flag and the wall-clock deadline are observed between units, never
//! inside one.

use vstd::prelude::*;

verus! {

use crate::channel::channel_bounded;
use crate::channel::channel_try_recv;
use crate::error::FerritestError;
use crate::error::GpuError;
use crate::gpu::api::create_bind_group2;
use crate::gpu::api::create_bind_group3;
use crate::gpu::api::create_command_encoder;
use crate::gpu::api::copy_entire_buffer;
use crate::gpu::api::map_read_signal;
use crate::gpu::api::poll_device;
use crate::gpu::api::read_mapped_and_unmap;
use crate::gpu::api::request_device;
use crate::gpu::api::run_compute_pass;
use crate::gpu::api::submit_commands;
use crate::gpu::api::unmap_buffer;
use crate::gpu::buffers::BufferManager;
use crate::gpu::buffers::ErrorInfo;
use crate::gpu::buffers::RECORD_BYTES;
use crate::gpu::buffers::ShaderParams;
use crate::gpu::device::GpuInfo;
use crate::gpu::device::backend_label;
use crate::gpu::device::spec_backend_label;
use crate::gpu::shaders::ShaderManager;
use crate::gpu::shaders::WORKGROUP_SIZE;
use crate::cpu::spec_ceil_div;
use crate::patterns::TestPattern;
use crate::stats::TestStats;
use crate::timing::duration_from_secs;
use crate::timing::elapsed_at_least;
use crate::timing::elapsed_millis;
use crate::timing::monotonic_now;
use crate::traits::MemoryTester;
use crate::traits::TestConfig;
use crate::traits::TestResult;
use core::sync::atomic::AtomicBool;
use core::sync::atomic::Ordering;
use std::sync::Arc;
use std::time::Duration;
use vstd::string::StringExecFns;

/// GPU VRAM memory tester.
///
/// Tests GPU memory using compute shaders that write and verify test
/// patterns in VRAM.  Holds the exclusive device and queue pair, so one
/// tester drives one device serially.
pub struct GpuTester {
    /// The wgpu device for GPU operations.
    device: wgpu::Device,
    /// The command queue for submitting work.
    queue: wgpu::Queue,
    /// Information about the GPU being tested.
    gpu_info: GpuInfo,
    /// Shader manager with the compute pipelines.
    shaders: ShaderManager,
    /// Buffer manager with the test and staging buffers.
    buffers: BufferManager,
    /// Timeout for one readback.
    timeout: Duration,
    /// The same timeout in whole seconds, as it is reported.
    timeout_secs: u64,
    /// Enable verbose output.
    verbose: bool,
}

/// The number of workgroups that cover `elements` elements.
fn workgroup_count(elements: u32) -> (r: u32)
    ensures
        r == spec_ceil_div(elements as nat, WORKGROUP_SIZE as nat),
{
    if elements % WORKGROUP_SIZE == 0 {
        elements / WORKGROUP_SIZE
    } else {
        proof {
            assert(elements / WORKGROUP_SIZE < elements) by (nonlinear_arith)
                requires
                    elements % WORKGROUP_SIZE != 0,
                    WORKGROUP_SIZE == 256,
            ;
        }
        elements / WORKGROUP_SIZE + 1
    }
}

/// Truncates a 64-bit value to its low 32 bits.
fn low32(v: u64) -> (r: u32)
    ensures
        r == v & 0xFFFF_FFFF,
{
    let m = v & 0xFFFF_FFFF;
    proof {
        assert(v & 0xFFFF_FFFF <= 0xFFFF_FFFF) by (bit_vector);
    }
    m as u32
}

impl GpuTester {
    /// The size of the test buffer in bytes.
    pub closed spec fn spec_buffer_size(&self) -> u64 {
        self.buffers.spec_buffer_size()
    }

    /// The description of the GPU under test.
    pub closed spec fn spec_gpu_info(&self) -> GpuInfo {
        self.gpu_info
    }

    /// Creates a new GPU tester for the specified adapter.
    ///
    /// Requests the exclusive device and queue, builds the compute
    /// pipelines from the two WGSL sources (see [`ShaderManager::new`] for
    /// what they must declare), and allocates the buffers for `memory_mb`
    /// megabytes of VRAM.  The only failure is the device request being
    /// refused.
    pub fn new(
        adapter: wgpu::Adapter,
        gpu_info: GpuInfo,
        memory_mb: usize,
        timeout_secs: u64,
        verbose: bool,
        patterns_source: &str,
        verify_source: &str,
    ) -> (r: Result<Self, GpuError>)
        requires
            memory_mb * 1024 * 1024 <= usize::MAX,
            memory_mb * 1024 * 1024 / 4 <= u32::MAX,
        ensures
            r matches Err(e) ==> e is DeviceRequest,
            r matches Ok(t) ==> t.spec_buffer_size() == memory_mb * 1024 * 1024
                && t.spec_gpu_info() == gpu_info,
    {
        let (device, queue) = match request_device(&adapter) {
            Ok(pair) => pair,
            Err(rendered) => {
                return Err(GpuError::DeviceRequest(rendered));
            },
        };

        let shaders = match ShaderManager::new(&device, patterns_source, verify_source) {
            Ok(shaders) => shaders,
            Err(e) => {
                return Err(e);
            },
        };
        let buffers = match BufferManager::new(&device, memory_mb) {
            Ok(buffers) => buffers,
            Err(e) => {
                return Err(e);
            },
        };

        Ok(
            GpuTester {
                device,
                queue,
                gpu_info,
                shaders,
                buffers,
                timeout: duration_from_secs(timeout_secs),
                timeout_secs,
                verbose,
            },
        )
    }

    /// Returns information about the GPU being tested.
    pub fn gpu_info(&self) -> (r: &GpuInfo)
        ensures
            *r == self.spec_gpu_info(),
    {
        &self.gpu_info
    }

    /// Returns the amount of memory being tested in bytes.
    pub fn buffer_size(&self) -> (r: u64)
        ensures
            r == self.spec_buffer_size(),
    {
        self.buffers.buffer_size()
    }

    /// Runs a single pattern test: a write dispatch, a verify dispatch and
    /// the readback of the error record.
    ///
    /// Whatever the shaders computed, the returned record is the sixteen
    /// bytes read back from the device; a failure is a readback timeout or
    /// a mapping error, never a memory mismatch (those are counted inside
    /// the record).
    pub fn run_pattern(&self, pattern: TestPattern, seed: u32) -> (r: Result<ErrorInfo, GpuError>)
        ensures
            r matches Err(e) ==> e is Timeout || e is BufferMapping,
    {
        let params = ShaderParams {
            pattern_id: pattern.pattern_id(),
            seed,
            total_elements: self.buffers.element_count(),
            padding: 0,
        };
        self.buffers.update_params(&self.queue, &params);
        self.buffers.reset_errors(&self.queue);

        let write_bind_group = create_bind_group2(
            &self.device,
            self.shaders.write_bind_group_layout(),
            self.buffers.params_buffer(),
            self.buffers.test_buffer(),
        );
        let verify_bind_group = create_bind_group3(
            &self.device,
            self.shaders.verify_bind_group_layout(),
            self.buffers.params_buffer(),
            self.buffers.test_buffer(),
            self.buffers.error_buffer(),
        );

        let workgroups = workgroup_count(self.buffers.element_count());

        let mut encoder = create_command_encoder(&self.device);
        run_compute_pass(&mut encoder, self.shaders.write_pipeline(), &write_bind_group, workgroups);
        run_compute_pass(
            &mut encoder,
            self.shaders.verify_pipeline(),
            &verify_bind_group,
            workgroups,
        );
        copy_entire_buffer(
            &mut encoder,
            self.buffers.error_buffer(),
            self.buffers.error_staging_buffer(),
            RECORD_BYTES as u64,
        );
        submit_commands(&self.queue, encoder);

        self.read_errors_with_timeout()
    }

    /// Reads the error record from the staging buffer, polling the device
    /// cooperatively until the mapping is ready or the timeout passes.  The
    /// staging buffer is unmapped again on the success path and on the
    /// timeout path, so no mapped-buffer state outlives the readback.
    fn read_errors_with_timeout(&self) -> (r: Result<ErrorInfo, GpuError>)
        ensures
            r matches Err(e) ==> e is Timeout || e is BufferMapping,
    {
        let (done_tx, done_rx) = channel_bounded::<Result<(), String>>(1);
        map_read_signal(self.buffers.error_staging_buffer(), done_tx);

        let start = monotonic_now();
        let mut fuel: u64 = u64::MAX;
        while 0 < fuel
            decreases fuel,
        {
            poll_device(&self.device);

            match channel_try_recv(&done_rx) {
                Some(Ok(())) => {
                    let bytes = read_mapped_and_unmap(self.buffers.error_staging_buffer());
                    return match ErrorInfo::from_bytes(&bytes) {
                        Some(info) => Ok(info),
                        None => Err(
                            GpuError::BufferMapping(
                                String::from_str("mapped range did not hold the error record"),
                            ),
                        ),
                    };
                },
                Some(Err(rendered)) => {
                    return Err(GpuError::BufferMapping(rendered));
                },
                None => {},
            }

            if elapsed_at_least(&start, &self.timeout) {
                unmap_buffer(self.buffers.error_staging_buffer());
                return Err(GpuError::Timeout(self.timeout_secs));
            }
            fuel = fuel - 1;
        }
        unmap_buffer(self.buffers.error_staging_buffer());
        Err(GpuError::Timeout(self.timeout_secs))
    }

    /// Runs the full suite: every configured pattern per pass, repeating
    /// passes when configured to run continuously.
    ///
    /// The stop flag and the optional wall-clock deadline are checked
    /// between pattern units; a unit that fails aborts the run with its GPU
    /// error.  Every completed unit tests the whole buffer, adds its bytes
    /// and one completed test to the shared statistics (and one error when
    /// the record reports any), and contributes one result.  The results
    /// follow the configured pattern list in order, wrapping around once per
    /// pass.
    pub fn run_suite(
        &mut self,
        config: &TestConfig,
        stats: Arc<TestStats>,
        should_stop: Arc<AtomicBool>,
    ) -> (r: Result<Vec<TestResult>, FerritestError>)
        ensures
            r matches Ok(results) ==> forall|i: int|
                0 <= i < results@.len() ==> (#[trigger] results@[i]).bytes_tested == old(
                    self,
                ).spec_buffer_size(),
            r matches Ok(results) ==> (0 < config.patterns@.len() ==> forall|i: int|
                0 <= i < results@.len() ==> (#[trigger] results@[i]).pattern
                    == config.patterns@[i % (config.patterns@.len() as int)]),
            r matches Err(e) ==> e is Gpu,
    {
        let mut results: Vec<TestResult> = Vec::new();
        let mut pass: u64 = 0;
        let start_time = monotonic_now();
        let ghost plen = config.patterns@.len() as int;

        while pass < u64::MAX
            invariant
                results@.len() == plen * pass,
                plen == config.patterns@.len(),
                forall|i: int|
                    0 <= i < results@.len() ==> (#[trigger] results@[i]).bytes_tested
                        == self.spec_buffer_size(),
                0 < plen ==> forall|i: int|
                    0 <= i < results@.len() ==> (#[trigger] results@[i]).pattern
                        == config.patterns@[i % plen],
            decreases u64::MAX - pass,
        {
            let mut p: usize = 0;
            while p < config.patterns.len()
                invariant
                    p <= config.patterns@.len(),
                    plen == config.patterns@.len(),
                    results@.len() == plen * pass + p,
                    forall|i: int|
                        0 <= i < results@.len() ==> (#[trigger] results@[i]).bytes_tested
                            == self.spec_buffer_size(),
                    0 < plen ==> forall|i: int|
                        0 <= i < results@.len() ==> (#[trigger] results@[i]).pattern
                            == config.patterns@[i % plen],
                decreases config.patterns@.len() - p,
            {
                if should_stop.load(Ordering::Relaxed) {
                    return Ok(results);
                }
                if let Some(deadline) = &config.timeout {
                    if elapsed_at_least(&start_time, deadline) {
                        return Ok(results);
                    }
                }

                let pattern = config.patterns[p];
                let pattern_start = monotonic_now();
                let seed = low32(pass.wrapping_mul(1000).wrapping_add(pattern.pattern_id() as u64));

                let record = match self.run_pattern(pattern, seed) {
                    Ok(record) => record,
                    Err(e) => {
                        return Err(FerritestError::from(e));
                    },
                };

                let duration_ms = elapsed_millis(&pattern_start);
                let bytes = self.buffers.buffer_size();

                stats.add_bytes(bytes);
                stats.add_test();
                if record.error_count > 0 {
                    stats.add_error();
                }

                results.push(
                    TestResult {
                        bytes_tested: bytes,
                        errors_found: record.error_count as u64,
                        pattern,
                        duration_ms,
                    },
                );
                proof {
                    vstd::arithmetic::div_mod::lemma_mod_multiples_vanish(
                        pass as int,
                        p as int,
                        plen,
                    );
                    vstd::arithmetic::div_mod::lemma_small_mod(p as nat, plen as nat);
                }
                p = p + 1;
            }

            proof {
                vstd::arithmetic::mul::lemma_mul_is_distributive_add(plen, pass as int, 1);
            }
            pass = pass + 1;

            if !config.continuous {
                return Ok(results);
            }
        }
        Ok(results)
    }
}

impl MemoryTester for GpuTester {
    /// A GPU tester is always named "GPU/VRAM".
    open spec fn spec_name(&self) -> Seq<char> {
        "GPU/VRAM"@
    }

    /// The GPU's name followed by its backend API in parentheses.
    open spec fn spec_device_info(&self) -> Seq<char> {
        self.spec_gpu_info().name@ + " ("@ + spec_backend_label(self.spec_gpu_info().backend)
            + ")"@
    }

    /// The whole test buffer is testable.
    open spec fn spec_max_memory(&self) -> u64 {
        self.spec_buffer_size()
    }

    fn name(&self) -> (r: &'static str) {
        "GPU/VRAM"
    }

    fn device_info(&self) -> (r: String) {
        let mut s = self.gpu_info.name.clone();
        s.append(" (");
        s.append(backend_label(self.gpu_info.backend));
        s.append(")");
        proof {
            assert(s@ =~= self.spec_device_info());
        }
        s
    }

    fn max_testable_memory(&self) -> (r: u64) {
        self.buffers.buffer_size()
    }

    fn run_tests(
        &mut self,
        config: &TestConfig,
        stats: Arc<TestStats>,
        should_stop: Arc<AtomicBool>,
    ) -> Result<Vec<TestResult>, FerritestError> {
        self.run_suite(config, stats, should_stop)
    }
}

} // verus!
