//! Error types for memory testing.
//!
//! This module provides unified error handling for both CPU and GPU memory
//! testing.  A detected mismatch is never fatal to the process: it is
//! collected and reported.  Device and configuration failures abort a GPU
//! run.  Every error renders to a human-readable message through
//! [`FerritestError::message`] and [`GpuError::message`], whose exact text is
//! pinned by contracts.

use vstd::prelude::*;

verus! {

use crate::patterns::TestPattern;
use crate::text::dec_string;
use crate::text::hex_string;
use crate::text::push_char;
use crate::text::spec_dec;
use crate::text::spec_hex;
use vstd::string::StringExecFns;

/// Information about a detected memory error.
#[derive(Debug, Clone)]
pub struct MemoryErrorInfo {
    /// The test pattern that detected the error.
    pub pattern: TestPattern,
    /// Byte offset where the error was detected.
    pub offset: usize,
    /// Thread or GPU that detected the error.
    pub source_id: usize,
    /// Expected value (if available).
    pub expected: Option<u64>,
    /// Actual value read (if available).
    pub actual: Option<u64>,
}

impl MemoryErrorInfo {
    /// Creates a new `MemoryErrorInfo` with minimal information.
    pub fn new(pattern: TestPattern, offset: usize, source_id: usize) -> (r: Self)
        ensures
            r.pattern == pattern,
            r.offset == offset,
            r.source_id == source_id,
            r.expected is None,
            r.actual is None,
    {
        MemoryErrorInfo { pattern, offset, source_id, expected: None, actual: None }
    }

    /// Creates a `MemoryErrorInfo` with expected and actual values.
    pub fn with_values(
        pattern: TestPattern,
        offset: usize,
        source_id: usize,
        expected: u64,
        actual: u64,
    ) -> (r: Self)
        ensures
            r.pattern == pattern,
            r.offset == offset,
            r.source_id == source_id,
            r.expected == Some(expected),
            r.actual == Some(actual),
    {
        MemoryErrorInfo { pattern, offset, source_id, expected: Some(expected), actual: Some(actual) }
    }
}

/// Unified error type for memory-testing operations.
#[derive(Debug)]
pub enum FerritestError {
    /// Memory error detected during testing.
    Memory { pattern: String, offset: usize, source_id: usize },
    /// Configuration error.
    Config(String),
    /// I/O error, carried as its rendered text.
    Io(String),
    /// GPU-specific errors.
    Gpu(GpuError),
}

/// GPU-specific errors.
#[derive(Debug)]
pub enum GpuError {
    /// No GPU adapter found.
    NoAdapter,
    /// Specified GPU adapter not found.
    AdapterNotFound { index: usize, available: Vec<String> },
    /// Failed to request GPU device.
    DeviceRequest(String),
    /// Buffer allocation failed.
    BufferAllocation { requested_mb: u64, available_mb: u64 },
    /// Shader compilation failed.
    ShaderCompilation(String),
    /// GPU device lost during testing.
    DeviceLost,
    /// Buffer mapping failed.
    BufferMapping(String),
    /// GPU operation timed out.
    Timeout(u64),
    /// Insufficient VRAM.
    InsufficientVram { needed_mb: u64, available_mb: u64 },
}

/// The rendering of a list of names, each in double quotes, separated by
/// commas and enclosed in brackets.
pub open spec fn spec_quoted_list(names: Seq<Seq<char>>) -> Seq<char> {
    seq!['['] + spec_quoted_items(names) + seq![']']
}

/// The comma-separated quoted items of [`spec_quoted_list`].
pub open spec fn spec_quoted_items(names: Seq<Seq<char>>) -> Seq<char>
    decreases names.len(),
{
    if names.len() == 0 {
        Seq::empty()
    } else if names.len() == 1 {
        seq!['"'] + names[0] + seq!['"']
    } else {
        seq!['"'] + names[0] + seq!['"'] + ", "@ + spec_quoted_items(names.drop_first())
    }
}

/// Renders a list of names as [`spec_quoted_list`] describes.
fn quoted_list(names: &Vec<String>) -> (s: String)
    ensures
        s@ == spec_quoted_list(names@.map_values(|n: String| n@)),
{
    let ghost views = names@.map_values(|n: String| n@);
    let mut s = String::new();
    push_char(&mut s, '[');
    let mut i: usize = 0;
    while i < names.len()
        invariant
            views == names@.map_values(|n: String| n@),
            views.len() == names@.len(),
            s@ == seq!['['] + spec_quoted_items(views.take(i as int)),
            i <= names.len(),
        decreases names.len() - i,
    {
        if i > 0 {
            s.append(", ");
        }
        push_char(&mut s, '"');
        s.append(names[i].as_str());
        push_char(&mut s, '"');
        proof {
            assert(views.take(i as int + 1).drop_last() =~= views.take(i as int));
            lemma_quoted_items_snoc(views, i as int);
            assert(s@ =~= seq!['['] + spec_quoted_items(views.take(i as int + 1)));
        }
        i = i + 1;
    }
    push_char(&mut s, ']');
    proof {
        assert(views.take(names@.len() as int) =~= views);
        assert(s@ =~= spec_quoted_list(views));
    }
    s
}

/// Appending one more name to a quoted list appends a comma separator (when
/// the list was not empty) and the quoted name.
proof fn lemma_quoted_items_snoc(names: Seq<Seq<char>>, i: int)
    requires
        0 <= i < names.len(),
    ensures
        i == 0 ==> spec_quoted_items(names.take(i + 1)) =~= seq!['"'] + names[i] + seq!['"'],
        i > 0 ==> spec_quoted_items(names.take(i + 1)) =~= spec_quoted_items(names.take(i)) + ", "@
            + seq!['"'] + names[i] + seq!['"'],
    decreases i,
{
    let pre = names.take(i + 1);
    if i == 0 {
        assert(pre.len() == 1);
    } else {
        lemma_quoted_items_snoc(names.drop_first(), i - 1);
        assert(pre.len() >= 2);
        assert(pre.drop_first() =~= names.drop_first().take(i));
        assert(names.take(i).drop_first() =~= names.drop_first().take(i - 1));
        assert(pre[0] == names.take(i)[0]);
    }
}

impl GpuError {
    /// The exact text of each error message.
    pub open spec fn spec_message(e: &GpuError) -> Seq<char> {
        match e {
            GpuError::NoAdapter => "No GPU adapter found"@,
            GpuError::AdapterNotFound { index, available } => "GPU adapter "@ + spec_dec(
                *index as nat,
            ) + " not found (available: "@ + spec_quoted_list(
                available@.map_values(|n: String| n@),
            ) + ")"@,
            GpuError::DeviceRequest(d) => "Failed to request GPU device: "@ + d@,
            GpuError::BufferAllocation { requested_mb, available_mb } =>
                "Buffer allocation failed: requested "@ + spec_dec(*requested_mb as nat) + "MB, available ~"@
                + spec_dec(*available_mb as nat) + "MB"@,
            GpuError::ShaderCompilation(d) => "Shader compilation failed: "@ + d@,
            GpuError::DeviceLost =>
                "GPU device lost during testing (possible driver crash or timeout)"@,
            GpuError::BufferMapping(d) => "Buffer mapping failed: "@ + d@,
            GpuError::Timeout(secs) => "GPU operation timed out after "@ + spec_dec(*secs as nat)
                + " seconds"@,
            GpuError::InsufficientVram { needed_mb, available_mb } => "Insufficient VRAM: need "@
                + spec_dec(*needed_mb as nat) + "MB, GPU reports "@ + spec_dec(*available_mb as nat)
                + "MB"@,
        }
    }

    /// Renders the error as a human-readable message.
    pub fn message(&self) -> (s: String)
        ensures
            s@ == Self::spec_message(self),
    {
        match self {
            GpuError::NoAdapter => String::from_str("No GPU adapter found"),
            GpuError::AdapterNotFound { index, available } => {
                let mut s = String::from_str("GPU adapter ");
                s.append(dec_string(*index as u64).as_str());
                s.append(" not found (available: ");
                s.append(quoted_list(available).as_str());
                s.append(")");
                proof {
                    assert(s@ =~= Self::spec_message(self));
                }
                s
            },
            GpuError::DeviceRequest(d) => {
                let mut s = String::from_str("Failed to request GPU device: ");
                s.append(d.as_str());
                s
            },
            GpuError::BufferAllocation { requested_mb, available_mb } => {
                let mut s = String::from_str("Buffer allocation failed: requested ");
                s.append(dec_string(*requested_mb).as_str());
                s.append("MB, available ~");
                s.append(dec_string(*available_mb).as_str());
                s.append("MB");
                proof {
                    assert(s@ =~= Self::spec_message(self));
                }
                s
            },
            GpuError::ShaderCompilation(d) => {
                let mut s = String::from_str("Shader compilation failed: ");
                s.append(d.as_str());
                s
            },
            GpuError::DeviceLost => String::from_str(
                "GPU device lost during testing (possible driver crash or timeout)",
            ),
            GpuError::BufferMapping(d) => {
                let mut s = String::from_str("Buffer mapping failed: ");
                s.append(d.as_str());
                s
            },
            GpuError::Timeout(secs) => {
                let mut s = String::from_str("GPU operation timed out after ");
                s.append(dec_string(*secs).as_str());
                s.append(" seconds");
                proof {
                    assert(s@ =~= Self::spec_message(self));
                }
                s
            },
            GpuError::InsufficientVram { needed_mb, available_mb } => {
                let mut s = String::from_str("Insufficient VRAM: need ");
                s.append(dec_string(*needed_mb).as_str());
                s.append("MB, GPU reports ");
                s.append(dec_string(*available_mb).as_str());
                s.append("MB");
                proof {
                    assert(s@ =~= Self::spec_message(self));
                }
                s
            },
        }
    }
}

impl FerritestError {
    /// The exact text of each error message.
    pub open spec fn spec_message(e: &FerritestError) -> Seq<char> {
        match e {
            FerritestError::Memory { pattern, offset, source_id } => "Memory error: "@ + pattern@
                + " at offset 0x"@ + spec_hex(*offset as nat) + " (source "@ + spec_dec(
                *source_id as nat,
            ) + ")"@,
            FerritestError::Config(d) => "Configuration error: "@ + d@,
            FerritestError::Io(d) => "I/O error: "@ + d@,
            FerritestError::Gpu(g) => "GPU error: "@ + GpuError::spec_message(g),
        }
    }

    /// Renders the error as a human-readable message.
    pub fn message(&self) -> (s: String)
        ensures
            s@ == Self::spec_message(self),
    {
        match self {
            FerritestError::Memory { pattern, offset, source_id } => {
                let mut s = String::from_str("Memory error: ");
                s.append(pattern.as_str());
                s.append(" at offset 0x");
                s.append(hex_string(*offset as u64).as_str());
                s.append(" (source ");
                s.append(dec_string(*source_id as u64).as_str());
                s.append(")");
                proof {
                    assert(s@ =~= Self::spec_message(self));
                }
                s
            },
            FerritestError::Config(d) => {
                let mut s = String::from_str("Configuration error: ");
                s.append(d.as_str());
                s
            },
            FerritestError::Io(d) => {
                let mut s = String::from_str("I/O error: ");
                s.append(d.as_str());
                s
            },
            FerritestError::Gpu(g) => {
                let mut s = String::from_str("GPU error: ");
                s.append(g.message().as_str());
                s
            },
        }
    }
}

impl From<GpuError> for FerritestError {
    /// Wraps a GPU error in the unified error type.
    fn from(e: GpuError) -> (r: Self) {
        FerritestError::Gpu(e)
    }
}

impl vstd::std_specs::convert::FromSpecImpl<GpuError> for FerritestError {
    open spec fn obeys_from_spec() -> bool {
        true
    }

    open spec fn from_spec(e: GpuError) -> FerritestError {
        FerritestError::Gpu(e)
    }
}

impl From<MemoryErrorInfo> for FerritestError {
    /// Renders a detected mismatch as the unified memory-error variant.
    fn from(info: MemoryErrorInfo) -> (r: Self) {
        FerritestError::Memory {
            pattern: String::from_str(info.pattern.name()),
            offset: info.offset,
            source_id: info.source_id,
        }
    }
}

impl vstd::std_specs::convert::FromSpecImpl<MemoryErrorInfo> for FerritestError {
    open spec fn obeys_from_spec() -> bool {
        // The converted value holds a freshly built `String`, which a spec
        // function cannot name; the conversion is pinned by the variant's
        // fields instead of by this extension.
        false
    }

    open spec fn from_spec(info: MemoryErrorInfo) -> FerritestError {
        arbitrary()
    }
}

} // verus!
