//! The trusted boundary to the wgpu crate.
//!
//! Every call into wgpu that the GPU tester makes goes through one of the
//! small wrappers here.  The handles wgpu returns (devices, buffers,
//! pipelines) are opaque to the verifier: the wrappers only move them and
//! plain values across the boundary, and the testing logic around them is
//! verified.  Several wrappers group the few calls that build or record one
//! GPU resource, because the intermediate objects borrow their parents and
//! cannot cross a function boundary one at a time.

use vstd::prelude::*;

verus! {

use crate::gpu::buffers::BufferRole;
use crate::gpu::device::Backend;
use crate::gpu::device::DeviceClass;
use crossbeam::channel::Sender;

#[verifier::external_type_specification]
#[verifier::external_body]
pub struct ExAdapter(wgpu::Adapter);

#[verifier::external_type_specification]
#[verifier::external_body]
pub struct ExDevice(wgpu::Device);

#[verifier::external_type_specification]
#[verifier::external_body]
pub struct ExQueue(wgpu::Queue);

#[verifier::external_type_specification]
#[verifier::external_body]
pub struct ExBuffer(wgpu::Buffer);

#[verifier::external_type_specification]
#[verifier::external_body]
pub struct ExShaderModule(wgpu::ShaderModule);

#[verifier::external_type_specification]
#[verifier::external_body]
pub struct ExBindGroupLayout(wgpu::BindGroupLayout);

#[verifier::external_type_specification]
#[verifier::external_body]
pub struct ExPipelineLayout(wgpu::PipelineLayout);

#[verifier::external_type_specification]
#[verifier::external_body]
pub struct ExComputePipeline(wgpu::ComputePipeline);

#[verifier::external_type_specification]
#[verifier::external_body]
pub struct ExBindGroup(wgpu::BindGroup);

#[verifier::external_type_specification]
#[verifier::external_body]
pub struct ExBindGroupLayoutEntry(wgpu::BindGroupLayoutEntry);

#[verifier::external_type_specification]
#[verifier::external_body]
pub struct ExCommandEncoder(wgpu::CommandEncoder);

/// Relies on `wgpu::Instance::new` and `wgpu::Instance::enumerate_adapters`:
/// every adapter of every available graphics backend, possibly none.
#[verifier::external_body]
pub(crate) fn enumerate_adapters_all() -> Vec<wgpu::Adapter> {
    let instance = wgpu::Instance::new(wgpu::InstanceDescriptor::new_without_display_handle());
    pollster::block_on(instance.enumerate_adapters(wgpu::Backends::all()))
}

/// Relies on `wgpu::Adapter::get_info`: the adapter's name, numeric vendor
/// identifier and driver version string.
#[verifier::external_body]
pub(crate) fn adapter_descriptors(adapter: &wgpu::Adapter) -> (String, u32, String) {
    let info = adapter.get_info();
    (info.name, info.vendor, info.driver)
}

/// Relies on `wgpu::Adapter::get_info`: the adapter's backend API, mapped
/// one-to-one onto the library's enumeration.
#[verifier::external_body]
pub(crate) fn adapter_backend(adapter: &wgpu::Adapter) -> Backend {
    match adapter.get_info().backend {
        wgpu::Backend::Noop => Backend::Noop,
        wgpu::Backend::Vulkan => Backend::Vulkan,
        wgpu::Backend::Metal => Backend::Metal,
        wgpu::Backend::Dx12 => Backend::Dx12,
        wgpu::Backend::Gl => Backend::Gl,
        wgpu::Backend::BrowserWebGpu => Backend::BrowserWebGpu,
    }
}

/// Relies on `wgpu::Adapter::get_info`: the adapter's device class, mapped
/// one-to-one onto the library's enumeration.
#[verifier::external_body]
pub(crate) fn adapter_device_class(adapter: &wgpu::Adapter) -> DeviceClass {
    match adapter.get_info().device_type {
        wgpu::DeviceType::Other => DeviceClass::Other,
        wgpu::DeviceType::IntegratedGpu => DeviceClass::IntegratedGpu,
        wgpu::DeviceType::DiscreteGpu => DeviceClass::DiscreteGpu,
        wgpu::DeviceType::VirtualGpu => DeviceClass::VirtualGpu,
        wgpu::DeviceType::Cpu => DeviceClass::Cpu,
    }
}

/// Relies on `wgpu::Adapter::request_device` (driven by `pollster`): an
/// exclusive device and queue pair, or the failure rendered as text.
#[verifier::external_body]
pub(crate) fn request_device(adapter: &wgpu::Adapter) -> Result<(wgpu::Device, wgpu::Queue), String> {
    pollster::block_on(
        adapter.request_device(
            &wgpu::DeviceDescriptor {
                label: Some("ferritest"),
                memory_hints: wgpu::MemoryHints::Performance,
                ..Default::default()
            },
        ),
    ).map_err(|e| e.to_string())
}

/// Relies on `wgpu::Device::create_shader_module`: compiles WGSL source
/// text; an invalid module surfaces later as a device error.
#[verifier::external_body]
pub(crate) fn create_shader_module(device: &wgpu::Device, label: &str, source: &str) -> wgpu::ShaderModule {
    device.create_shader_module(
        wgpu::ShaderModuleDescriptor {
            label: Some(label),
            source: wgpu::ShaderSource::Wgsl(source.into()),
        },
    )
}

/// Relies on `wgpu::Device::create_bind_group_layout` over the given
/// entries.
#[verifier::external_body]
pub(crate) fn create_bind_group_layout(
    device: &wgpu::Device,
    label: &str,
    entries: &Vec<wgpu::BindGroupLayoutEntry>,
) -> wgpu::BindGroupLayout {
    device.create_bind_group_layout(
        &wgpu::BindGroupLayoutDescriptor { label: Some(label), entries: entries.as_slice() },
    )
}

/// Relies on `wgpu::BindGroupLayoutEntry`: a compute-visible uniform-buffer
/// binding slot.
#[verifier::external_body]
pub(crate) fn bgl_entry_uniform(binding: u32) -> wgpu::BindGroupLayoutEntry {
    wgpu::BindGroupLayoutEntry {
        binding,
        visibility: wgpu::ShaderStages::COMPUTE,
        ty: wgpu::BindingType::Buffer {
            ty: wgpu::BufferBindingType::Uniform,
            has_dynamic_offset: false,
            min_binding_size: None,
        },
        count: None,
    }
}

/// Relies on `wgpu::BindGroupLayoutEntry`: a compute-visible storage-buffer
/// binding slot, read-only when asked.
#[verifier::external_body]
pub(crate) fn bgl_entry_storage(binding: u32, read_only: bool) -> wgpu::BindGroupLayoutEntry {
    wgpu::BindGroupLayoutEntry {
        binding,
        visibility: wgpu::ShaderStages::COMPUTE,
        ty: wgpu::BindingType::Buffer {
            ty: wgpu::BufferBindingType::Storage { read_only },
            has_dynamic_offset: false,
            min_binding_size: None,
        },
        count: None,
    }
}

/// Relies on `wgpu::Device::create_pipeline_layout` over one bind group
/// layout.
#[verifier::external_body]
pub(crate) fn create_pipeline_layout(
    device: &wgpu::Device,
    layout: &wgpu::BindGroupLayout,
) -> wgpu::PipelineLayout {
    device.create_pipeline_layout(
        &wgpu::PipelineLayoutDescriptor {
            label: None,
            bind_group_layouts: &[Some(layout)],
            immediate_size: 0,
        },
    )
}

/// Relies on `wgpu::Device::create_compute_pipeline`: a compute pipeline for
/// the named entry point of an already compiled module.
#[verifier::external_body]
pub(crate) fn create_compute_pipeline(
    device: &wgpu::Device,
    layout: &wgpu::PipelineLayout,
    module: &wgpu::ShaderModule,
    entry: &str,
) -> wgpu::ComputePipeline {
    device.create_compute_pipeline(
        &wgpu::ComputePipelineDescriptor {
            label: Some(entry),
            layout: Some(layout),
            module,
            entry_point: Some(entry),
            compilation_options: Default::default(),
            cache: None,
        },
    )
}

/// Relies on `wgpu::Device::create_buffer`: an unmapped buffer of `size`
/// bytes whose label and usage flags follow its role.
#[verifier::external_body]
pub(crate) fn create_buffer(device: &wgpu::Device, role: BufferRole, size: u64) -> wgpu::Buffer {
    let (label, usage) = match role {
        BufferRole::Test => ("test_buffer", wgpu::BufferUsages::STORAGE | wgpu::BufferUsages::COPY_DST | wgpu::BufferUsages::COPY_SRC),
        BufferRole::Params => ("params_buffer", wgpu::BufferUsages::UNIFORM | wgpu::BufferUsages::COPY_DST),
        BufferRole::Errors => ("error_buffer", wgpu::BufferUsages::STORAGE | wgpu::BufferUsages::COPY_DST | wgpu::BufferUsages::COPY_SRC),
        BufferRole::ErrorStaging => ("error_staging_buffer", wgpu::BufferUsages::MAP_READ | wgpu::BufferUsages::COPY_DST),
    };
    device.create_buffer(
        &wgpu::BufferDescriptor { label: Some(label), size, usage, mapped_at_creation: false },
    )
}

/// Relies on `wgpu::Queue::write_buffer`: schedules writing the bytes at the
/// start of the buffer; writing past the buffer's end is a device error.
#[verifier::external_body]
pub(crate) fn write_buffer(queue: &wgpu::Queue, buffer: &wgpu::Buffer, data: &Vec<u8>) {
    queue.write_buffer(buffer, 0, data.as_slice());
}

/// Relies on `wgpu::Device::create_bind_group`: binds two buffers entirely
/// to slots 0 and 1 of the layout.
#[verifier::external_body]
pub(crate) fn create_bind_group2(
    device: &wgpu::Device,
    layout: &wgpu::BindGroupLayout,
    buffer0: &wgpu::Buffer,
    buffer1: &wgpu::Buffer,
) -> wgpu::BindGroup {
    device.create_bind_group(
        &wgpu::BindGroupDescriptor {
            label: None,
            layout,
            entries: &[
                wgpu::BindGroupEntry { binding: 0, resource: buffer0.as_entire_binding() },
                wgpu::BindGroupEntry { binding: 1, resource: buffer1.as_entire_binding() },
            ],
        },
    )
}

/// Relies on `wgpu::Device::create_bind_group`: binds three buffers entirely
/// to slots 0, 1 and 2 of the layout.
#[verifier::external_body]
pub(crate) fn create_bind_group3(
    device: &wgpu::Device,
    layout: &wgpu::BindGroupLayout,
    buffer0: &wgpu::Buffer,
    buffer1: &wgpu::Buffer,
    buffer2: &wgpu::Buffer,
) -> wgpu::BindGroup {
    device.create_bind_group(
        &wgpu::BindGroupDescriptor {
            label: None,
            layout,
            entries: &[
                wgpu::BindGroupEntry { binding: 0, resource: buffer0.as_entire_binding() },
                wgpu::BindGroupEntry { binding: 1, resource: buffer1.as_entire_binding() },
                wgpu::BindGroupEntry { binding: 2, resource: buffer2.as_entire_binding() },
            ],
        },
    )
}

/// Relies on `wgpu::Device::create_command_encoder`.
#[verifier::external_body]
pub(crate) fn create_command_encoder(device: &wgpu::Device) -> wgpu::CommandEncoder {
    device.create_command_encoder(&wgpu::CommandEncoderDescriptor { label: Some("test_encoder") })
}

/// Relies on `wgpu::CommandEncoder::begin_compute_pass` and the compute-pass
/// recording methods: records one dispatch of `workgroups` workgroups of the
/// pipeline over the bind group.  The pass object borrows the encoder, so
/// the whole recording stands in one wrapper.
#[verifier::external_body]
pub(crate) fn run_compute_pass(
    encoder: &mut wgpu::CommandEncoder,
    pipeline: &wgpu::ComputePipeline,
    bind_group: &wgpu::BindGroup,
    workgroups: u32,
) {
    let mut pass = encoder.begin_compute_pass(
        &wgpu::ComputePassDescriptor { label: None, timestamp_writes: None },
    );
    pass.set_pipeline(pipeline);
    pass.set_bind_group(0, bind_group, &[]);
    pass.dispatch_workgroups(workgroups, 1, 1);
}

/// Relies on `wgpu::CommandEncoder::copy_buffer_to_buffer`: records copying
/// `size` bytes from the start of one buffer to the start of another.  The
/// call panics on a size that is not a multiple of the copy alignment, so
/// such sizes are excluded.  It also panics when the copy would overrun
/// either buffer; buffer capacities are opaque here, so no `requires` can
/// name them, and every call in this crate copies the sixteen-byte error
/// record between the two sixteen-byte buffers its manager allocated.
#[verifier::external_body]
pub(crate) fn copy_entire_buffer(
    encoder: &mut wgpu::CommandEncoder,
    source: &wgpu::Buffer,
    destination: &wgpu::Buffer,
    size: u64,
)
    requires
        size % 4 == 0,
{
    encoder.copy_buffer_to_buffer(source, 0, destination, 0, size);
}

/// Relies on `wgpu::CommandEncoder::finish` and `wgpu::Queue::submit`:
/// submits the recorded commands for execution.
#[verifier::external_body]
pub(crate) fn submit_commands(queue: &wgpu::Queue, encoder: wgpu::CommandEncoder) {
    queue.submit(Some(encoder.finish()));
}

/// Relies on `wgpu::Buffer::map_async`: asks to map the whole buffer for
/// reading and hands the outcome, success or the failure rendered as text,
/// to the channel once the device reports it.
#[verifier::external_body]
pub(crate) fn map_read_signal(buffer: &wgpu::Buffer, done: Sender<Result<(), String>>) {
    buffer.map_async(
        wgpu::MapMode::Read,
        ..,
        move |result| {
            let _ = done.send(result.map_err(|e| e.to_string()));
        },
    );
}

/// Relies on `wgpu::Device::poll`: lets the device make progress and run
/// pending mapping callbacks, without blocking.
#[verifier::external_body]
pub(crate) fn poll_device(device: &wgpu::Device) {
    let _ = device.poll(wgpu::PollType::Poll);
}

/// Relies on `wgpu::Buffer::unmap`: unmaps the buffer and terminates the
/// effect of previous mapping requests, making the buffer available to the
/// GPU again.
#[verifier::external_body]
pub(crate) fn unmap_buffer(buffer: &wgpu::Buffer) {
    buffer.unmap();
}

/// Relies on `wgpu::Buffer::get_mapped_range` and `wgpu::Buffer::unmap`:
/// the bytes of a mapped buffer, which is unmapped again before returning;
/// an unreadable mapping yields no bytes.
#[verifier::external_body]
pub(crate) fn read_mapped_and_unmap(buffer: &wgpu::Buffer) -> Vec<u8> {
    let data = match buffer.get_mapped_range(..) {
        Ok(view) => view.to_vec(),
        Err(_) => Vec::new(),
    };
    buffer.unmap();
    data
}

} // verus!
