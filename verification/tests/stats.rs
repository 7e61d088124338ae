use ferritest::TestStats;

#[test]
fn test_stats_new() {
    let stats = TestStats::new();
    assert_eq!(stats.get_bytes(), 0);
    assert_eq!(stats.get_errors(), 0);
    assert_eq!(stats.get_tests(), 0);
}

#[test]
fn test_stats_default() {
    let stats = TestStats::default();
    assert_eq!(stats.get_bytes(), 0);
    assert_eq!(stats.get_errors(), 0);
    assert_eq!(stats.get_tests(), 0);
}

#[test]
fn stats_test_stats_tracking() {
    let stats = TestStats::new();

    stats.add_bytes(1024);
    stats.add_bytes(2048);
    assert_eq!(stats.get_bytes(), 3072);

    stats.add_error();
    stats.add_error();
    assert_eq!(stats.get_errors(), 2);

    stats.add_test();
    assert_eq!(stats.get_tests(), 1);
}
