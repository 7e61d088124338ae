use ferritest::TestPattern;
use ferritest::traits::ProgressUpdate;
use ferritest::traits::TestConfig;
use ferritest::traits::TestResult;
use std::time::Duration;

#[test]
fn test_config_default() {
    let config = TestConfig::default();
    assert_eq!(config.memory_mb, 1024);
    assert_eq!(config.patterns.len(), 8);
    assert!(!config.continuous);
    assert!(config.timeout.is_none());
    assert!(config.threads.is_none());
    assert!(!config.verbose);
}

#[test]
fn test_config_custom() {
    let config = TestConfig {
        memory_mb: 512,
        patterns: vec![TestPattern::AllZeros, TestPattern::AllOnes],
        continuous: true,
        timeout: Some(Duration::from_secs(60)),
        threads: Some(4),
        verbose: true,
    };
    assert_eq!(config.memory_mb, 512);
    assert_eq!(config.patterns.len(), 2);
    assert!(config.continuous);
    assert_eq!(config.timeout, Some(Duration::from_secs(60)));
    assert_eq!(config.threads, Some(4));
    assert!(config.verbose);
}

#[test]
fn test_result_creation() {
    let result = TestResult {
        bytes_tested: 1024 * 1024 * 1024,
        errors_found: 0,
        pattern: TestPattern::WalkingOnes,
        duration_ms: 1500,
    };
    assert_eq!(result.bytes_tested, 1024 * 1024 * 1024);
    assert_eq!(result.errors_found, 0);
    assert_eq!(result.pattern, TestPattern::WalkingOnes);
    assert_eq!(result.duration_ms, 1500);
}

#[test]
fn test_progress_update() {
    let update = ProgressUpdate {
        pattern_name: "All Zeros".to_string(),
        bytes_processed: 512 * 1024 * 1024,
        total_bytes: 1024 * 1024 * 1024,
        current_pass: 1,
    };
    assert_eq!(update.pattern_name, "All Zeros");
    assert_eq!(update.bytes_processed, 512 * 1024 * 1024);
    assert_eq!(update.total_bytes, 1024 * 1024 * 1024);
    assert_eq!(update.current_pass, 1);
}
