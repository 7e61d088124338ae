//! Compute pipeline management for GPU memory testing.
//!
//! This module builds the two compute pipelines the GPU tester dispatches:
//! a "write" pipeline that fills the test buffer with a pattern, and a
//! "verify" pipeline that re-reads it and records mismatches.  The WGSL
//! source text itself is a fixed external contract supplied by the caller;
//! this module pins the binding layout (uniform parameters, storage data,
//! storage error record) and the entry-point names.

use vstd::prelude::*;

verus! {

use crate::error::GpuError;
use crate::gpu::api::bgl_entry_storage;
use crate::gpu::api::bgl_entry_uniform;
use crate::gpu::api::create_bind_group_layout;
use crate::gpu::api::create_compute_pipeline;
use crate::gpu::api::create_pipeline_layout;
use crate::gpu::api::create_shader_module;

/// Workgroup size used by the compute shaders.
/// Must match the workgroup size declared in the WGSL sources.
pub const WORKGROUP_SIZE: u32 = 256;

/// Manages shader modules and compute pipelines for GPU memory testing.
pub struct ShaderManager {
    /// Pipeline for writing test patterns to memory.
    write_pipeline: wgpu::ComputePipeline,
    /// Pipeline for verifying test patterns in memory.
    verify_pipeline: wgpu::ComputePipeline,
    /// Bind group layout for the write pipeline.
    write_bind_group_layout: wgpu::BindGroupLayout,
    /// Bind group layout for the verify pipeline.
    verify_bind_group_layout: wgpu::BindGroupLayout,
}

impl ShaderManager {
    /// Creates a `ShaderManager` with compiled shaders and pipelines.
    ///
    /// `patterns_source` must define the entry point `write_pattern` over
    /// bindings {0: uniform params, 1: read-write storage data};
    /// `verify_source` must define `verify_pattern` over bindings
    /// {0: uniform params, 1: read-only storage data, 2: read-write storage
    /// errors}.  Construction itself always succeeds; invalid WGSL surfaces
    /// as an unrecoverable device error when the pipelines are first used,
    /// which wgpu treats as fatal.
    pub fn new(device: &wgpu::Device, patterns_source: &str, verify_source: &str) -> (r: Result<
        Self,
        GpuError,
    >)
        ensures
            r is Ok,
    {
        let write_module = create_shader_module(device, "pattern_write", patterns_source);
        let verify_module = create_shader_module(device, "pattern_verify", verify_source);

        // Write pipeline bindings: uniform params, read-write data.
        let mut write_entries: Vec<wgpu::BindGroupLayoutEntry> = Vec::new();
        write_entries.push(bgl_entry_uniform(0));
        write_entries.push(bgl_entry_storage(1, false));
        let write_bind_group_layout = create_bind_group_layout(
            device,
            "write_bind_group_layout",
            &write_entries,
        );

        // Verify pipeline bindings: uniform params, read-only data,
        // read-write error record.
        let mut verify_entries: Vec<wgpu::BindGroupLayoutEntry> = Vec::new();
        verify_entries.push(bgl_entry_uniform(0));
        verify_entries.push(bgl_entry_storage(1, true));
        verify_entries.push(bgl_entry_storage(2, false));
        let verify_bind_group_layout = create_bind_group_layout(
            device,
            "verify_bind_group_layout",
            &verify_entries,
        );

        let write_pipeline_layout = create_pipeline_layout(device, &write_bind_group_layout);
        let verify_pipeline_layout = create_pipeline_layout(device, &verify_bind_group_layout);

        let write_pipeline = create_compute_pipeline(
            device,
            &write_pipeline_layout,
            &write_module,
            "write_pattern",
        );
        let verify_pipeline = create_compute_pipeline(
            device,
            &verify_pipeline_layout,
            &verify_module,
            "verify_pattern",
        );

        Ok(
            ShaderManager {
                write_pipeline,
                verify_pipeline,
                write_bind_group_layout,
                verify_bind_group_layout,
            },
        )
    }

    /// Returns a reference to the write pipeline.
    pub fn write_pipeline(&self) -> &wgpu::ComputePipeline {
        &self.write_pipeline
    }

    /// Returns a reference to the verify pipeline.
    pub fn verify_pipeline(&self) -> &wgpu::ComputePipeline {
        &self.verify_pipeline
    }

    /// Returns a reference to the write bind group layout.
    pub fn write_bind_group_layout(&self) -> &wgpu::BindGroupLayout {
        &self.write_bind_group_layout
    }

    /// Returns a reference to the verify bind group layout.
    pub fn verify_bind_group_layout(&self) -> &wgpu::BindGroupLayout {
        &self.verify_bind_group_layout
    }
}

} // verus!
