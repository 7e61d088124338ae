//! GPU/VRAM memory testing implementation.
//!
//! This module provides GPU memory testing using wgpu for cross-platform
//! support (Vulkan, Metal, DX12). Tests VRAM using compute shaders that
//! run the same test patterns as CPU testing.
//!
//! - [`device`]: GPU enumeration and selection
//! - [`shaders`]: compute pipeline creation over caller-supplied WGSL text
//! - [`buffers`]: GPU buffer management for test data and errors
//! - [`tester`]: testing orchestration via [`tester::GpuTester`]
//! - [`api`]: the trusted boundary to the wgpu crate

pub(crate) mod api;
pub mod buffers;
pub mod device;
pub mod pattern_ids;
pub mod shaders;
pub mod tester;

pub use buffers::BufferManager;
pub use buffers::ErrorInfo;
pub use buffers::ShaderParams;
pub use device::GpuInfo;
pub use device::enumerate_gpus;
pub use device::select_gpu;
pub use shaders::ShaderManager;
pub use shaders::WORKGROUP_SIZE;
pub use tester::GpuTester;
