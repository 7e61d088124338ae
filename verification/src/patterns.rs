//! Test pattern definitions for memory testing.
//!
//! This module contains the `TestPattern` enum and its implementation,
//! which defines various bit patterns used to test memory integrity.
//! Every pattern is a deterministic function of the word index and, for the
//! random pattern, of a 64-bit seed, so that verification can recompute the
//! expected contents without keeping a reference copy.

use vstd::prelude::*;

verus! {

use rand::Rng;
use rand::SeedableRng;

/// Memory test patterns for detecting different types of memory faults.
///
/// Each pattern is designed to stress memory in different ways:
/// - Walking patterns detect stuck-at faults and coupling faults
/// - Checkerboard patterns detect address decoder faults
/// - Random patterns provide broad coverage
/// - Solid patterns (all zeros/ones) detect stuck bits
#[derive(Debug, Clone, Copy, PartialEq, Eq, Hash, Structural)]
pub enum TestPattern {
    WalkingOnes,
    WalkingZeros,
    Checkerboard,
    InverseCheckerboard,
    RandomPattern,
    AllZeros,
    AllOnes,
    Sequential,
}

/// The `k`-th 64-bit word drawn from a pseudo-random generator seeded with
/// `seed`.  The stream is a pure function of the seed and the draw index;
/// nothing else is known about its values.
pub uninterp spec fn random_word(seed: u64, k: int) -> u64;

/// The word that a pattern stores at index `i` of a block.
pub open spec fn word_at(p: TestPattern, seed: u64, i: int) -> u64 {
    match p {
        TestPattern::WalkingOnes => 1u64 << ((i % 64) as u64),
        TestPattern::WalkingZeros => !(1u64 << ((i % 64) as u64)),
        TestPattern::Checkerboard => 0xAAAAAAAAAAAAAAAAu64,
        TestPattern::InverseCheckerboard => 0x5555555555555555u64,
        TestPattern::RandomPattern => random_word(seed, i),
        TestPattern::AllZeros => 0u64,
        TestPattern::AllOnes => u64::MAX,
        TestPattern::Sequential => i as u64,
    }
}

/// The full contents of a block of `len` words filled with pattern `p`.
pub open spec fn spec_fill(p: TestPattern, seed: u64, len: nat) -> Seq<u64> {
    Seq::new(len, |i: int| word_at(p, seed, i))
}

/// What verification reports for the suffix of `s` that starts at `i`:
/// the first mismatching index at or after `i`, or success.
pub open spec fn spec_verify_from(p: TestPattern, seed: u64, s: Seq<u64>, i: int) -> Result<
    (),
    int,
>
    decreases s.len() - i,
{
    if i >= s.len() {
        Ok(())
    } else if s[i] != word_at(p, seed, i) {
        Err(i)
    } else {
        spec_verify_from(p, seed, s, i + 1)
    }
}

/// What verification reports for a whole block: the first index whose word
/// differs from the pattern, or success when every word matches.
pub open spec fn spec_verify(p: TestPattern, seed: u64, s: Seq<u64>) -> Result<(), int> {
    spec_verify_from(p, seed, s, 0)
}

/// Relies on `rand::rngs::StdRng::seed_from_u64` and `rand::Rng::gen::<u64>`:
/// a `StdRng` is a deterministic pseudo-random generator, so the words drawn
/// from it are a function of the seed and the draw index alone.
#[verifier::external_body]
fn random_words(seed: u64, count: usize) -> (r: Vec<u64>)
    ensures
        r@.len() == count,
        forall|k: int| 0 <= k < count ==> r@[k] == random_word(seed, k),
{
    let mut rng = rand::rngs::StdRng::seed_from_u64(seed);
    let mut words = Vec::with_capacity(count);
    for _ in 0..count {
        words.push(rng.gen());
    }
    words
}

impl TestPattern {
    /// The eight patterns in their fixed order; the order is part of the wire
    /// contract with the GPU shaders and must never change.
    pub open spec fn spec_all_patterns() -> Seq<TestPattern> {
        seq![
            TestPattern::WalkingOnes,
            TestPattern::WalkingZeros,
            TestPattern::Checkerboard,
            TestPattern::InverseCheckerboard,
            TestPattern::RandomPattern,
            TestPattern::AllZeros,
            TestPattern::AllOnes,
            TestPattern::Sequential,
        ]
    }

    /// Returns all available test patterns.
    pub fn all_patterns() -> (r: Vec<Self>)
        ensures
            r@ == Self::spec_all_patterns(),
    {
        let patterns = vec![
            Self::WalkingOnes,
            Self::WalkingZeros,
            Self::Checkerboard,
            Self::InverseCheckerboard,
            Self::RandomPattern,
            Self::AllZeros,
            Self::AllOnes,
            Self::Sequential,
        ];
        proof {
            assert(patterns@ =~= Self::spec_all_patterns());
        }
        patterns
    }

    /// The human-readable name of each pattern.
    pub open spec fn spec_name(p: TestPattern) -> Seq<char> {
        match p {
            TestPattern::WalkingOnes => "Walking Ones"@,
            TestPattern::WalkingZeros => "Walking Zeros"@,
            TestPattern::Checkerboard => "Checkerboard"@,
            TestPattern::InverseCheckerboard => "Inverse Checkerboard"@,
            TestPattern::RandomPattern => "Random Pattern"@,
            TestPattern::AllZeros => "All Zeros"@,
            TestPattern::AllOnes => "All Ones"@,
            TestPattern::Sequential => "Sequential"@,
        }
    }

    /// Returns the human-readable name of this pattern.
    pub fn name(&self) -> (r: &'static str)
        ensures
            r@ == Self::spec_name(*self),
    {
        match self {
            Self::WalkingOnes => "Walking Ones",
            Self::WalkingZeros => "Walking Zeros",
            Self::Checkerboard => "Checkerboard",
            Self::InverseCheckerboard => "Inverse Checkerboard",
            Self::RandomPattern => "Random Pattern",
            Self::AllZeros => "All Zeros",
            Self::AllOnes => "All Ones",
            Self::Sequential => "Sequential",
        }
    }

    /// The numeric pattern ID consumed by the GPU shaders.
    pub open spec fn spec_pattern_id(p: TestPattern) -> u32 {
        match p {
            TestPattern::WalkingOnes => 0u32,
            TestPattern::WalkingZeros => 1u32,
            TestPattern::Checkerboard => 2u32,
            TestPattern::InverseCheckerboard => 3u32,
            TestPattern::RandomPattern => 4u32,
            TestPattern::AllZeros => 5u32,
            TestPattern::AllOnes => 6u32,
            TestPattern::Sequential => 7u32,
        }
    }

    /// Returns the numeric pattern ID for GPU shaders.
    ///
    /// These IDs must match the constants in the WGSL shader sources.
    pub fn pattern_id(&self) -> (r: u32)
        ensures
            r == Self::spec_pattern_id(*self),
    {
        match self {
            Self::WalkingOnes => 0,
            Self::WalkingZeros => 1,
            Self::Checkerboard => 2,
            Self::InverseCheckerboard => 3,
            Self::RandomPattern => 4,
            Self::AllZeros => 5,
            Self::AllOnes => 6,
            Self::Sequential => 7,
        }
    }

    /// Fills a memory block with this pattern.
    ///
    /// Every word of the block is overwritten with the word the pattern
    /// assigns to its index; the block's length is unchanged.
    pub fn fill_block(&self, block: &mut Vec<u64>, seed: u64)
        ensures
            final (block)@.len() == old(block)@.len(),
            final (block)@ == spec_fill(*self, seed, old(block)@.len() as nat),
    {
        let n = block.len();
        if is_random_pattern(*self) {
            let words = random_words(seed, n);
            let mut i: usize = 0;
            while i < n
                invariant
                    n == old(block)@.len(),
                    block@.len() == n,
                    words@.len() == n,
                    forall|k: int| 0 <= k < n ==> words@[k] == random_word(seed, k),
                    forall|k: int| 0 <= k < i ==> block@[k] == word_at(*self, seed, k),
                    *self is RandomPattern,
                decreases n - i,
            {
                block[i] = words[i];
                i = i + 1;
            }
        } else {
            let mut i: usize = 0;
            while i < n
                invariant
                    n == old(block)@.len(),
                    block@.len() == n,
                    forall|k: int| 0 <= k < i ==> block@[k] == word_at(*self, seed, k),
                    !(*self is RandomPattern),
                decreases n - i,
            {
                block[i] = word_for_index(*self, seed, i);
                i = i + 1;
            }
        }
        proof {
            assert(block@ =~= spec_fill(*self, seed, old(block)@.len() as nat));
        }
    }

    /// Verifies that a memory block contains the expected pattern.
    ///
    /// Recomputes every expected word and compares; reports the index of the
    /// first mismatching word, or success when every word matches.
    pub fn verify_block(&self, block: &Vec<u64>, seed: u64) -> (r: Result<(), usize>)
        ensures
            match r {
                Ok(()) => spec_verify(*self, seed, block@) == Result::<(), int>::Ok(()),
                Err(i) => spec_verify(*self, seed, block@) == Result::<(), int>::Err(i as int),
            },
    {
        let n = block.len();
        if is_random_pattern(*self) {
            let words = random_words(seed, n);
            let mut i: usize = 0;
            while i < n
                invariant
                    block@.len() == n,
                    words@.len() == n,
                    forall|k: int| 0 <= k < n ==> words@[k] == random_word(seed, k),
                    forall|k: int| 0 <= k < i ==> block@[k] == word_at(*self, seed, k),
                    *self is RandomPattern,
                decreases n - i,
            {
                if block[i] != words[i] {
                    proof {
                        lemma_verify_reaches(*self, seed, block@, i as int);
                    }
                    return Err(i);
                }
                i = i + 1;
            }
        } else {
            let mut i: usize = 0;
            while i < n
                invariant
                    block@.len() == n,
                    forall|k: int| 0 <= k < i ==> block@[k] == word_at(*self, seed, k),
                    !(*self is RandomPattern),
                decreases n - i,
            {
                if block[i] != word_for_index(*self, seed, i) {
                    proof {
                        lemma_verify_reaches(*self, seed, block@, i as int);
                    }
                    return Err(i);
                }
                i = i + 1;
            }
        }
        proof {
            lemma_verify_reaches(*self, seed, block@, n as int);
        }
        Ok(())
    }
}

/// Tells whether a pattern is the seeded random pattern.
fn is_random_pattern(p: TestPattern) -> (r: bool)
    ensures
        r == (p is RandomPattern),
{
    match p {
        TestPattern::RandomPattern => true,
        TestPattern::WalkingOnes => false,
        TestPattern::WalkingZeros => false,
        TestPattern::Checkerboard => false,
        TestPattern::InverseCheckerboard => false,
        TestPattern::AllZeros => false,
        TestPattern::AllOnes => false,
        TestPattern::Sequential => false,
    }
}

/// Computes the expected word for one index of a deterministic pattern.
fn word_for_index(p: TestPattern, seed: u64, i: usize) -> (r: u64)
    requires
        !(p is RandomPattern),
    ensures
        r == word_at(p, seed, i as int),
{
    match p {
        TestPattern::WalkingOnes => {
            let sh: u64 = (i as u64) % 64;
            1u64 << sh
        },
        TestPattern::WalkingZeros => {
            let sh: u64 = (i as u64) % 64;
            !(1u64 << sh)
        },
        TestPattern::Checkerboard => 0xAAAAAAAAAAAAAAAA,
        TestPattern::InverseCheckerboard => 0x5555555555555555,
        TestPattern::RandomPattern => 0,
        TestPattern::AllZeros => 0,
        TestPattern::AllOnes => u64::MAX,
        TestPattern::Sequential => i as u64,
    }
}

/// When every word before `i` matches the pattern, verification of the whole
/// block reports exactly what verification of the suffix starting at `i`
/// reports.
proof fn lemma_verify_reaches(p: TestPattern, seed: u64, s: Seq<u64>, i: int)
    requires
        0 <= i <= s.len(),
        forall|k: int| 0 <= k < i ==> s[k] == word_at(p, seed, k),
    ensures
        spec_verify(p, seed, s) == spec_verify_from(p, seed, s, i),
    decreases i,
{
    if i > 0 {
        lemma_verify_reaches(p, seed, s, i - 1);
        assert(spec_verify_from(p, seed, s, i - 1) == spec_verify_from(p, seed, s, i));
    }
}

/// A mismatch report always points at a block index whose word differs from
/// the pattern.
pub proof fn lemma_verify_err_range(p: TestPattern, seed: u64, s: Seq<u64>, i: int)
    requires
        0 <= i,
    ensures
        spec_verify_from(p, seed, s, i) matches Err(k) ==> i <= k < s.len() && s[k] != word_at(
            p,
            seed,
            k,
        ),
    decreases s.len() - i,
{
    if i < s.len() && s[i] == word_at(p, seed, i) {
        lemma_verify_err_range(p, seed, s, i + 1);
    }
}

/// Filling a block and verifying it with the same pattern and seed always
/// succeeds, whatever the block size.
pub proof fn lemma_fill_then_verify_ok(p: TestPattern, seed: u64, len: nat)
    ensures
        spec_verify(p, seed, spec_fill(p, seed, len)) == Result::<(), int>::Ok(()),
{
    let s = spec_fill(p, seed, len);
    lemma_verify_reaches(p, seed, s, len as int);
}

/// Filling is deterministic: two blocks of equal length filled with the same
/// pattern and seed hold identical contents.
pub proof fn lemma_fill_deterministic(p: TestPattern, seed: u64, b1: Seq<u64>, b2: Seq<u64>)
    requires
        b1 == spec_fill(p, seed, b1.len()),
        b2 == spec_fill(p, seed, b2.len()),
        b1.len() == b2.len(),
    ensures
        b1 == b2,
{
}

/// The checkerboard and inverse-checkerboard words XOR to all ones at every
/// index, for every seed.
pub proof fn lemma_checkerboard_complement(s1: u64, s2: u64, i: int, j: int)
    ensures
        word_at(TestPattern::Checkerboard, s1, i) ^ word_at(TestPattern::InverseCheckerboard, s2, j)
            == u64::MAX,
{
    assert(0xAAAAAAAAAAAAAAAAu64 ^ 0x5555555555555555u64 == u64::MAX) by (bit_vector);
}

/// Verification reports the first corrupted index: if every word below `k`
/// matches the pattern and the word at `k` does not, the result is `Err(k)`.
/// Corrupting several indices of a filled block therefore reports the
/// smallest of them.
pub proof fn lemma_verify_first_mismatch(p: TestPattern, seed: u64, s: Seq<u64>, k: int)
    requires
        0 <= k < s.len(),
        s[k] != word_at(p, seed, k),
        forall|j: int| 0 <= j < k ==> s[j] == word_at(p, seed, j),
    ensures
        spec_verify(p, seed, s) == Result::<(), int>::Err(k),
{
    lemma_verify_reaches(p, seed, s, k);
}

/// The pattern IDs 0 through 7 follow the fixed pattern ordering.
pub proof fn lemma_pattern_ids_match_order()
    ensures
        forall|i: int|
            0 <= i < 8 ==> TestPattern::spec_pattern_id(
                #[trigger] TestPattern::spec_all_patterns()[i],
            ) == i as u32,
{
}

} // verus!
