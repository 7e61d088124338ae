use ferritest::TestPattern;

const TEST_BLOCK_SIZE: usize = 1024;

#[test]
fn patterns_test_all_patterns_count() {
    assert_eq!(TestPattern::all_patterns().len(), 8);
}

#[test]
fn patterns_test_pattern_names() {
    assert_eq!(TestPattern::WalkingOnes.name(), "Walking Ones");
    assert_eq!(TestPattern::WalkingZeros.name(), "Walking Zeros");
    assert_eq!(TestPattern::Checkerboard.name(), "Checkerboard");
    assert_eq!(TestPattern::InverseCheckerboard.name(), "Inverse Checkerboard");
    assert_eq!(TestPattern::RandomPattern.name(), "Random Pattern");
    assert_eq!(TestPattern::AllZeros.name(), "All Zeros");
    assert_eq!(TestPattern::AllOnes.name(), "All Ones");
    assert_eq!(TestPattern::Sequential.name(), "Sequential");
}

#[test]
fn patterns_test_walking_ones_fill_and_verify() {
    let mut block = vec![0u64; TEST_BLOCK_SIZE];
    TestPattern::WalkingOnes.fill_block(&mut block, 0);

    // Verify pattern correctness
    for (i, &val) in block.iter().enumerate() {
        let expected = 1u64.wrapping_shl((i % 64) as u32);
        assert_eq!(val, expected, "Mismatch at index {}", i);
    }

    // Verify using verify_block
    assert!(TestPattern::WalkingOnes.verify_block(&block, 0).is_ok());
}

#[test]
fn patterns_test_walking_zeros_fill_and_verify() {
    let mut block = vec![0u64; TEST_BLOCK_SIZE];
    TestPattern::WalkingZeros.fill_block(&mut block, 0);

    for (i, &val) in block.iter().enumerate() {
        let expected = !1u64.wrapping_shl((i % 64) as u32);
        assert_eq!(val, expected, "Mismatch at index {}", i);
    }

    assert!(TestPattern::WalkingZeros.verify_block(&block, 0).is_ok());
}

#[test]
fn patterns_test_checkerboard_fill_and_verify() {
    let mut block = vec![0u64; TEST_BLOCK_SIZE];
    TestPattern::Checkerboard.fill_block(&mut block, 0);

    for &val in &block {
        assert_eq!(val, 0xAAAAAAAAAAAAAAAA);
    }

    assert!(TestPattern::Checkerboard.verify_block(&block, 0).is_ok());
}

#[test]
fn patterns_test_inverse_checkerboard_fill_and_verify() {
    let mut block = vec![0u64; TEST_BLOCK_SIZE];
    TestPattern::InverseCheckerboard.fill_block(&mut block, 0);

    for &val in &block {
        assert_eq!(val, 0x5555555555555555);
    }

    assert!(TestPattern::InverseCheckerboard.verify_block(&block, 0).is_ok());
}

#[test]
fn patterns_test_all_zeros_fill_and_verify() {
    let mut block = vec![0xFFu64; TEST_BLOCK_SIZE];
    TestPattern::AllZeros.fill_block(&mut block, 0);

    for &val in &block {
        assert_eq!(val, 0);
    }

    assert!(TestPattern::AllZeros.verify_block(&block, 0).is_ok());
}

#[test]
fn patterns_test_all_ones_fill_and_verify() {
    let mut block = vec![0u64; TEST_BLOCK_SIZE];
    TestPattern::AllOnes.fill_block(&mut block, 0);

    for &val in &block {
        assert_eq!(val, u64::MAX);
    }

    assert!(TestPattern::AllOnes.verify_block(&block, 0).is_ok());
}

#[test]
fn patterns_test_sequential_fill_and_verify() {
    let mut block = vec![0u64; TEST_BLOCK_SIZE];
    TestPattern::Sequential.fill_block(&mut block, 0);

    for (i, &val) in block.iter().enumerate() {
        assert_eq!(val, i as u64);
    }

    assert!(TestPattern::Sequential.verify_block(&block, 0).is_ok());
}

#[test]
fn patterns_test_random_pattern_deterministic() {
    let mut block1 = vec![0u64; TEST_BLOCK_SIZE];
    let mut block2 = vec![0u64; TEST_BLOCK_SIZE];

    TestPattern::RandomPattern.fill_block(&mut block1, 42);
    TestPattern::RandomPattern.fill_block(&mut block2, 42);

    assert_eq!(block1, block2, "Same seed should produce same pattern");
    assert!(TestPattern::RandomPattern.verify_block(&block1, 42).is_ok());
}

#[test]
fn patterns_test_random_pattern_different_seeds() {
    let mut block1 = vec![0u64; TEST_BLOCK_SIZE];
    let mut block2 = vec![0u64; TEST_BLOCK_SIZE];

    TestPattern::RandomPattern.fill_block(&mut block1, 1);
    TestPattern::RandomPattern.fill_block(&mut block2, 2);

    assert_ne!(block1, block2, "Different seeds should produce different patterns");
}

#[test]
fn patterns_test_verify_detects_corruption() {
    let mut block = vec![0u64; TEST_BLOCK_SIZE];
    TestPattern::AllZeros.fill_block(&mut block, 0);

    // Corrupt one byte
    block[100] = 0xFF;

    let result = TestPattern::AllZeros.verify_block(&block, 0);
    assert!(result.is_err());
    assert_eq!(result.unwrap_err(), 100);
}

#[test]
fn patterns_test_all_patterns_fill_and_verify() {
    for pattern in TestPattern::all_patterns() {
        let mut block = vec![0u64; TEST_BLOCK_SIZE];
        let seed = 12345u64;

        pattern.fill_block(&mut block, seed);
        let result = pattern.verify_block(&block, seed);

        assert!(result.is_ok(), "Pattern {:?} failed verification", pattern.name());
    }
}

#[test]
fn patterns_test_checkerboard_inverse_relationship() {
    let mut checker = vec![0u64; TEST_BLOCK_SIZE];
    let mut inverse = vec![0u64; TEST_BLOCK_SIZE];

    TestPattern::Checkerboard.fill_block(&mut checker, 0);
    TestPattern::InverseCheckerboard.fill_block(&mut inverse, 0);

    for (c, i) in checker.iter().zip(inverse.iter()) {
        assert_eq!(*c ^ *i, u64::MAX, "Checkerboard and inverse should XOR to all 1s");
    }
}
