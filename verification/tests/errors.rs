use ferritest::TestPattern;
use ferritest::error::FerritestError;
use ferritest::error::GpuError;
use ferritest::error::MemoryErrorInfo;

#[test]
fn test_memory_error_info_new() {
    let info = MemoryErrorInfo::new(TestPattern::AllZeros, 1024, 0);
    assert_eq!(info.pattern, TestPattern::AllZeros);
    assert_eq!(info.offset, 1024);
    assert_eq!(info.source_id, 0);
    assert!(info.expected.is_none());
    assert!(info.actual.is_none());
}

#[test]
fn test_memory_error_info_with_values() {
    let info = MemoryErrorInfo::with_values(TestPattern::AllOnes, 2048, 1, 0xFF, 0x00);
    assert_eq!(info.pattern, TestPattern::AllOnes);
    assert_eq!(info.offset, 2048);
    assert_eq!(info.source_id, 1);
    assert_eq!(info.expected, Some(0xFF));
    assert_eq!(info.actual, Some(0x00));
}

#[test]
fn test_ferritest_error_display() {
    let err = FerritestError::Memory {
        pattern: "All Zeros".to_string(),
        offset: 0x1000,
        source_id: 0,
    };
    assert!(err.message().contains("Memory error"));
    assert!(err.message().contains("0x1000"));
}

#[test]
fn test_gpu_error_display() {
    let err = GpuError::NoAdapter;
    assert!(err.message().contains("No GPU adapter"));

    let err = GpuError::Timeout(30);
    assert!(err.message().contains("30 seconds"));
}

#[test]
fn test_adapter_not_found_display() {
    let err = GpuError::AdapterNotFound {
        index: 5,
        available: vec!["GPU 0".into(), "GPU 1".into()],
    };
    let msg = err.message();
    assert!(msg.contains("5"));
    assert!(msg.contains("GPU 0"));
}

#[test]
fn test_buffer_allocation_display() {
    let err = GpuError::BufferAllocation { requested_mb: 8192, available_mb: 4096 };
    let msg = err.message();
    assert!(msg.contains("8192"));
    assert!(msg.contains("4096"));
}

#[test]
fn test_gpu_error_to_ferritest_error() {
    let gpu_err = GpuError::NoAdapter;
    let err: FerritestError = gpu_err.into();
    assert!(matches!(err, FerritestError::Gpu(_)));
}

#[test]
fn test_memory_error_info_into_ferritest_error() {
    let info = MemoryErrorInfo::new(TestPattern::Checkerboard, 512, 2);
    let err: FerritestError = info.into();

    match err {
        FerritestError::Memory { pattern, offset, source_id } => {
            assert_eq!(pattern, "Checkerboard");
            assert_eq!(offset, 512);
            assert_eq!(source_id, 2);
        }
        _ => panic!("Expected Memory error"),
    }
}

#[test]
fn test_exact_memory_error_message() {
    let err = FerritestError::Memory {
        pattern: "All Zeros".to_string(),
        offset: 0x1000,
        source_id: 0,
    };
    assert_eq!(err.message(), "Memory error: All Zeros at offset 0x1000 (source 0)");
}

#[test]
fn test_exact_gpu_error_messages() {
    assert_eq!(GpuError::NoAdapter.message(), "No GPU adapter found");
    assert_eq!(
        GpuError::AdapterNotFound { index: 5, available: vec!["GPU 0".into(), "GPU 1".into()] }
            .message(),
        "GPU adapter 5 not found (available: [\"GPU 0\", \"GPU 1\"])"
    );
    assert_eq!(
        GpuError::DeviceRequest("refused".to_string()).message(),
        "Failed to request GPU device: refused"
    );
    assert_eq!(
        GpuError::BufferAllocation { requested_mb: 8192, available_mb: 4096 }.message(),
        "Buffer allocation failed: requested 8192MB, available ~4096MB"
    );
    assert_eq!(
        GpuError::ShaderCompilation("bad token".to_string()).message(),
        "Shader compilation failed: bad token"
    );
    assert_eq!(
        GpuError::DeviceLost.message(),
        "GPU device lost during testing (possible driver crash or timeout)"
    );
    assert_eq!(
        GpuError::BufferMapping("stale".to_string()).message(),
        "Buffer mapping failed: stale"
    );
    assert_eq!(GpuError::Timeout(30).message(), "GPU operation timed out after 30 seconds");
    assert_eq!(
        GpuError::InsufficientVram { needed_mb: 4096, available_mb: 2048 }.message(),
        "Insufficient VRAM: need 4096MB, GPU reports 2048MB"
    );
}

#[test]
fn test_exact_wrapped_messages() {
    assert_eq!(
        FerritestError::Config("bad flag".to_string()).message(),
        "Configuration error: bad flag"
    );
    assert_eq!(FerritestError::Io("pipe closed".to_string()).message(), "I/O error: pipe closed");
    assert_eq!(
        FerritestError::Gpu(GpuError::NoAdapter).message(),
        "GPU error: No GPU adapter found"
    );
}
