//! GPU buffer management for memory testing.
//!
//! This module provides buffer allocation and management for GPU memory
//! testing, including the test buffer, parameter uniforms, and error
//! reporting.  The two records exchanged with the compute shaders,
//! [`ShaderParams`] and [`ErrorInfo`], are a binary contract: each occupies
//! exactly sixteen bytes, four 32-bit words in little-endian order, and
//! their layout must match the shader-side declarations word for word.

use vstd::prelude::*;

verus! {

use crate::error::GpuError;
use crate::gpu::api::create_buffer;
use crate::gpu::api::write_buffer;

/// The sixteen-byte size shared by [`ShaderParams`] and [`ErrorInfo`].
pub const RECORD_BYTES: usize = 16;

/// Parameters handed to the compute shaders through the uniform buffer.
/// Must match the parameter struct in the WGSL sources.
#[derive(Debug, Clone, Copy, PartialEq, Eq, Structural)]
pub struct ShaderParams {
    /// Pattern ID (0-7 matching the `TestPattern` order).
    pub pattern_id: u32,
    /// Random seed for pattern generation.
    pub seed: u32,
    /// Total number of u32 elements in the test buffer.
    pub total_elements: u32,
    /// Padding for 16-byte alignment.
    pub padding: u32,
}

/// Error information returned from the verify shader.
/// Must match the error struct in the WGSL sources.
#[derive(Debug, Clone, Copy, PartialEq, Eq, Structural)]
pub struct ErrorInfo {
    /// Number of errors detected.
    pub error_count: u32,
    /// Index of the first error detected.
    pub first_error_index: u32,
    /// Expected value at the first error location.
    pub first_error_expected: u32,
    /// Actual value found at the first error location.
    pub first_error_actual: u32,
}

impl Default for ErrorInfo {
    /// The all-zero record: no error seen.
    fn default() -> (r: Self)
        ensures
            r.error_count == 0,
            r.first_error_index == 0,
            r.first_error_expected == 0,
            r.first_error_actual == 0,
    {
        ErrorInfo { error_count: 0, first_error_index: 0, first_error_expected: 0, first_error_actual: 0 }
    }
}

/// The little-endian bytes of one 32-bit word.
pub open spec fn spec_le32(x: u32) -> Seq<u8> {
    seq![
        (x & 0xFF) as u8,
        ((x >> 8) & 0xFF) as u8,
        ((x >> 16) & 0xFF) as u8,
        ((x >> 24) & 0xFF) as u8,
    ]
}

/// The wire form of the shader parameters: four little-endian words.
pub open spec fn spec_params_bytes(p: ShaderParams) -> Seq<u8> {
    spec_le32(p.pattern_id) + spec_le32(p.seed) + spec_le32(p.total_elements) + spec_le32(p.padding)
}

/// The wire form of the error record: four little-endian words.
pub open spec fn spec_error_info_bytes(e: ErrorInfo) -> Seq<u8> {
    spec_le32(e.error_count) + spec_le32(e.first_error_index) + spec_le32(e.first_error_expected)
        + spec_le32(e.first_error_actual)
}

/// Appends one 32-bit word to a byte buffer in little-endian order.
fn push_le32(out: &mut Vec<u8>, x: u32)
    ensures
        final (out)@ == old(out)@ + spec_le32(x),
{
    proof {
        assert((x & 0xFF) < 256 && ((x >> 8) & 0xFF) < 256 && ((x >> 16) & 0xFF) < 256 && ((x >> 24)
            & 0xFF) < 256) by (bit_vector);
    }
    out.push((x & 0xFF) as u8);
    out.push(((x >> 8) & 0xFF) as u8);
    out.push(((x >> 16) & 0xFF) as u8);
    out.push(((x >> 24) & 0xFF) as u8);
    proof {
        assert(out@ =~= old(out)@ + spec_le32(x));
    }
}

/// Reads one little-endian 32-bit word from a byte buffer.
fn read_le32(bytes: &Vec<u8>, offset: usize) -> (x: u32)
    requires
        offset + 4 <= bytes@.len(),
    ensures
        spec_le32(x) == bytes@.subrange(offset as int, offset as int + 4),
{
    let n = bytes.len();
    proof {
        assert(offset + 4 <= n);
    }
    let b0 = bytes[offset] as u32;
    let b1 = bytes[offset + 1] as u32;
    let b2 = bytes[offset + 2] as u32;
    let b3 = bytes[offset + 3] as u32;
    let x = b0 | (b1 << 8) | (b2 << 16) | (b3 << 24);
    proof {
        assert((x & 0xFF) == b0 && ((x >> 8) & 0xFF) == b1 && ((x >> 16) & 0xFF) == b2 && ((x >> 24)
            & 0xFF) == b3) by (bit_vector)
            requires
                x == b0 | (b1 << 8) | (b2 << 16) | (b3 << 24),
                b0 < 256,
                b1 < 256,
                b2 < 256,
                b3 < 256,
        ;
        assert(spec_le32(x) =~= bytes@.subrange(offset as int, offset as int + 4));
    }
    x
}

impl ShaderParams {
    /// Serializes the parameters to their sixteen-byte wire form.
    pub fn to_bytes(&self) -> (r: Vec<u8>)
        ensures
            r@.len() == RECORD_BYTES,
            r@ == spec_params_bytes(*self),
    {
        let mut out: Vec<u8> = Vec::new();
        push_le32(&mut out, self.pattern_id);
        push_le32(&mut out, self.seed);
        push_le32(&mut out, self.total_elements);
        push_le32(&mut out, self.padding);
        proof {
            assert(out@ =~= spec_params_bytes(*self));
        }
        out
    }
}

impl ErrorInfo {
    /// Serializes the record to its sixteen-byte wire form.
    pub fn to_bytes(&self) -> (r: Vec<u8>)
        ensures
            r@.len() == RECORD_BYTES,
            r@ == spec_error_info_bytes(*self),
    {
        let mut out: Vec<u8> = Vec::new();
        push_le32(&mut out, self.error_count);
        push_le32(&mut out, self.first_error_index);
        push_le32(&mut out, self.first_error_expected);
        push_le32(&mut out, self.first_error_actual);
        proof {
            assert(out@ =~= spec_error_info_bytes(*self));
        }
        out
    }

    /// Parses the sixteen-byte wire form back into a record; anything of
    /// another length is rejected.
    pub fn from_bytes(bytes: &Vec<u8>) -> (r: Option<ErrorInfo>)
        ensures
            match r {
                Some(e) => bytes@ == spec_error_info_bytes(e),
                None => bytes@.len() != RECORD_BYTES,
            },
    {
        if bytes.len() != RECORD_BYTES {
            return None;
        }
        let e = ErrorInfo {
            error_count: read_le32(bytes, 0),
            first_error_index: read_le32(bytes, 4),
            first_error_expected: read_le32(bytes, 8),
            first_error_actual: read_le32(bytes, 12),
        };
        proof {
            assert(bytes@ =~= spec_error_info_bytes(e));
        }
        Some(e)
    }
}

/// Two 32-bit words with the same little-endian bytes are the same word.
proof fn lemma_le32_injective(x: u32, y: u32)
    requires
        spec_le32(x) == spec_le32(y),
    ensures
        x == y,
{
    assert(spec_le32(x)[0] == spec_le32(y)[0] && spec_le32(x)[1] == spec_le32(y)[1] && spec_le32(
        x,
    )[2] == spec_le32(y)[2] && spec_le32(x)[3] == spec_le32(y)[3]);
    assert(x == y) by (bit_vector)
        requires
            (x & 0xFF) as u8 == (y & 0xFF) as u8,
            ((x >> 8) & 0xFF) as u8 == ((y >> 8) & 0xFF) as u8,
            ((x >> 16) & 0xFF) as u8 == ((y >> 16) & 0xFF) as u8,
            ((x >> 24) & 0xFF) as u8 == ((y >> 24) & 0xFF) as u8,
    ;
}

/// The wire form pins the record: two error records with the same sixteen
/// bytes are the same record, so parsing back what was serialized can only
/// return the record that was written.
pub proof fn lemma_error_record_wire_injective(a: ErrorInfo, b: ErrorInfo)
    requires
        spec_error_info_bytes(a) == spec_error_info_bytes(b),
    ensures
        a == b,
{
    let ba = spec_error_info_bytes(a);
    let bb = spec_error_info_bytes(b);
    assert(spec_le32(a.error_count) =~= ba.subrange(0, 4));
    assert(spec_le32(a.first_error_index) =~= ba.subrange(4, 8));
    assert(spec_le32(a.first_error_expected) =~= ba.subrange(8, 12));
    assert(spec_le32(a.first_error_actual) =~= ba.subrange(12, 16));
    assert(spec_le32(b.error_count) =~= bb.subrange(0, 4));
    assert(spec_le32(b.first_error_index) =~= bb.subrange(4, 8));
    assert(spec_le32(b.first_error_expected) =~= bb.subrange(8, 12));
    assert(spec_le32(b.first_error_actual) =~= bb.subrange(12, 16));
    lemma_le32_injective(a.error_count, b.error_count);
    lemma_le32_injective(a.first_error_index, b.first_error_index);
    lemma_le32_injective(a.first_error_expected, b.first_error_expected);
    lemma_le32_injective(a.first_error_actual, b.first_error_actual);
}

/// The four fixed roles of the tester's GPU buffers; each decides a
/// buffer's label and usage flags.
#[derive(Debug, Clone, Copy, PartialEq, Eq, Structural)]
pub enum BufferRole {
    /// The VRAM under test: read-write storage.
    Test,
    /// The shader-parameter uniform.
    Params,
    /// The device-side error record.
    Errors,
    /// The host-readable copy of the error record.
    ErrorStaging,
}

/// Manages GPU buffers for memory testing.
///
/// Handles allocation of the test buffer (the VRAM being tested), the
/// shader-parameter uniform, the device-side error record and its
/// host-readable staging copy.
pub struct BufferManager {
    /// The main test buffer (GPU memory to test).
    test_buffer: wgpu::Buffer,
    /// Uniform buffer for shader parameters.
    params_buffer: wgpu::Buffer,
    /// Storage buffer for error information (GPU-side).
    error_buffer: wgpu::Buffer,
    /// Staging buffer for reading errors back to the host.
    error_staging_buffer: wgpu::Buffer,
    /// Size of the test buffer in bytes.
    buffer_size: u64,
    /// Number of u32 elements in the test buffer.
    element_count: u32,
}

impl BufferManager {
    /// The size of the test buffer in bytes.
    pub closed spec fn spec_buffer_size(&self) -> u64 {
        self.buffer_size
    }

    /// The number of 32-bit elements in the test buffer.
    pub closed spec fn spec_element_count(&self) -> u32 {
        self.element_count
    }

    /// Creates a new `BufferManager` testing `memory_mb` megabytes.
    ///
    /// The requested amount is rounded down to whole 32-bit elements (it is
    /// a whole number of megabytes, so nothing is lost), and the element
    /// count must fit the 32-bit field of the shader parameters.
    pub fn new(device: &wgpu::Device, memory_mb: usize) -> (r: Result<Self, GpuError>)
        requires
            memory_mb * 1024 * 1024 <= usize::MAX,
            memory_mb * 1024 * 1024 / 4 <= u32::MAX,
        ensures
            r matches Ok(m) && m.spec_buffer_size() == memory_mb * 1024 * 1024
                && m.spec_element_count() == memory_mb * 1024 * 1024 / 4,
    {
        let buffer_size = (memory_mb * 1024 * 1024) as u64;
        let element_count = (buffer_size / 4) as u32;

        let test_buffer = create_buffer(device, BufferRole::Test, buffer_size);
        let params_buffer = create_buffer(device, BufferRole::Params, RECORD_BYTES as u64);
        let error_buffer = create_buffer(device, BufferRole::Errors, RECORD_BYTES as u64);
        let error_staging_buffer = create_buffer(
            device,
            BufferRole::ErrorStaging,
            RECORD_BYTES as u64,
        );

        Ok(
            BufferManager {
                test_buffer,
                params_buffer,
                error_buffer,
                error_staging_buffer,
                buffer_size,
                element_count,
            },
        )
    }

    /// Returns a reference to the test buffer.
    pub fn test_buffer(&self) -> &wgpu::Buffer {
        &self.test_buffer
    }

    /// Returns a reference to the params buffer.
    pub fn params_buffer(&self) -> &wgpu::Buffer {
        &self.params_buffer
    }

    /// Returns a reference to the error buffer.
    pub fn error_buffer(&self) -> &wgpu::Buffer {
        &self.error_buffer
    }

    /// Returns a reference to the error staging buffer.
    pub fn error_staging_buffer(&self) -> &wgpu::Buffer {
        &self.error_staging_buffer
    }

    /// Returns the size of the test buffer in bytes.
    pub fn buffer_size(&self) -> (r: u64)
        ensures
            r == self.spec_buffer_size(),
    {
        self.buffer_size
    }

    /// Returns the number of u32 elements in the test buffer.
    pub fn element_count(&self) -> (r: u32)
        ensures
            r == self.spec_element_count(),
    {
        self.element_count
    }

    /// Schedules writing the shader parameters into the uniform buffer.
    pub fn update_params(&self, queue: &wgpu::Queue, params: &ShaderParams) {
        let bytes = params.to_bytes();
        write_buffer(queue, &self.params_buffer, &bytes);
    }

    /// Schedules zeroing the device-side error record.
    pub fn reset_errors(&self, queue: &wgpu::Queue) {
        let zeros = ErrorInfo::default();
        let bytes = zeros.to_bytes();
        write_buffer(queue, &self.error_buffer, &bytes);
    }
}

} // verus!
