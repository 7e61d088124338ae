use ferritest::TestPattern;
use ferritest::TestStats;
use ferritest::cpu::CpuTester;
use ferritest::cpu::CpuTesterConfig;
use ferritest::cpu::test_memory_block;

#[test]
fn test_cpu_tester_new() {
    let config = CpuTesterConfig::default();
    let tester = CpuTester::new(config);
    assert_eq!(tester.name(), "CPU/RAM");
    assert!(tester.num_threads() > 0);
}

#[test]
fn test_cpu_tester_config_default() {
    let config = CpuTesterConfig::default();
    assert_eq!(config.memory_mb, 1024);
    assert!(config.threads.is_none());
    assert!(!config.continuous);
    assert!(config.timeout.is_none());
    assert!(!config.verbose);
}

#[test]
fn test_cpu_tester_device_info() {
    let config = CpuTesterConfig { threads: Some(4), ..Default::default() };
    let tester = CpuTester::new(config);
    let info = tester.device_info();
    assert!(info.contains("4 threads"));
    assert!(info.contains("64 MB"));
}

#[test]
fn cpu_test_memory_block_no_error() {
    let mut block = vec![0u64; 1024];
    let stats = TestStats::new();

    let result = test_memory_block(&mut block, TestPattern::AllOnes, 0, 0, &stats);

    assert!(result.is_none());
    assert!(stats.get_bytes() > 0);
    assert_eq!(stats.get_errors(), 0);
    assert_eq!(stats.get_tests(), 1);
}
