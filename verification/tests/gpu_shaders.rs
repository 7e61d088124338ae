use ferritest::TestPattern;
use ferritest::gpu::ShaderManager;
use ferritest::gpu::WORKGROUP_SIZE;
use ferritest::gpu::pattern_ids;
use ferritest::gpu::select_gpu;

const PATTERNS_WGSL: &str = r#"
struct Params {
    pattern_id: u32,
    seed: u32,
    total_elements: u32,
    padding: u32,
}

@group(0) @binding(0) var<uniform> params: Params;
@group(0) @binding(1) var<storage, read_write> data: array<u32>;

fn pattern_value(index: u32) -> u32 {
    switch params.pattern_id {
        case 0u: { return 1u << (index % 32u); }
        case 1u: { return ~(1u << (index % 32u)); }
        case 2u: { return 0xAAAAAAAAu; }
        case 3u: { return 0x55555555u; }
        case 4u: {
            var x: u32 = params.seed ^ (index * 2654435761u);
            x = x ^ (x >> 16u);
            x = x * 2246822519u;
            x = x ^ (x >> 13u);
            x = x * 3266489917u;
            x = x ^ (x >> 16u);
            return x;
        }
        case 5u: { return 0u; }
        case 6u: { return 0xFFFFFFFFu; }
        default: { return index; }
    }
}

@compute @workgroup_size(256)
fn write_pattern(@builtin(global_invocation_id) gid: vec3<u32>) {
    let i = gid.x;
    if (i < params.total_elements) {
        data[i] = pattern_value(i);
    }
}
"#;

const VERIFY_WGSL: &str = r#"
struct Params {
    pattern_id: u32,
    seed: u32,
    total_elements: u32,
    padding: u32,
}

struct ErrorInfo {
    error_count: atomic<u32>,
    first_error_index: u32,
    first_error_expected: u32,
    first_error_actual: u32,
}

@group(0) @binding(0) var<uniform> params: Params;
@group(0) @binding(1) var<storage, read> data: array<u32>;
@group(0) @binding(2) var<storage, read_write> errors: ErrorInfo;

fn pattern_value(index: u32) -> u32 {
    switch params.pattern_id {
        case 0u: { return 1u << (index % 32u); }
        case 1u: { return ~(1u << (index % 32u)); }
        case 2u: { return 0xAAAAAAAAu; }
        case 3u: { return 0x55555555u; }
        case 4u: {
            var x: u32 = params.seed ^ (index * 2654435761u);
            x = x ^ (x >> 16u);
            x = x * 2246822519u;
            x = x ^ (x >> 13u);
            x = x * 3266489917u;
            x = x ^ (x >> 16u);
            return x;
        }
        case 5u: { return 0u; }
        case 6u: { return 0xFFFFFFFFu; }
        default: { return index; }
    }
}

@compute @workgroup_size(256)
fn verify_pattern(@builtin(global_invocation_id) gid: vec3<u32>) {
    let i = gid.x;
    if (i >= params.total_elements) {
        return;
    }
    let expected = pattern_value(i);
    let actual = data[i];
    if (actual != expected) {
        let seen = atomicAdd(&errors.error_count, 1u);
        if (seen == 0u) {
            errors.first_error_index = i;
            errors.first_error_expected = expected;
            errors.first_error_actual = actual;
        }
    }
}
"#;

fn setup_device() -> Option<(wgpu::Device, wgpu::Queue)> {
    let adapter = select_gpu(None).ok()?;
    pollster::block_on(adapter.request_device(&wgpu::DeviceDescriptor::default())).ok()
}

#[test]
fn test_pattern_ids_match_enum() {
    // Verify pattern IDs match the TestPattern enum order
    let patterns = TestPattern::all_patterns();
    assert_eq!(patterns[pattern_ids::WALKING_ONES as usize], TestPattern::WalkingOnes);
    assert_eq!(patterns[pattern_ids::WALKING_ZEROS as usize], TestPattern::WalkingZeros);
    assert_eq!(patterns[pattern_ids::CHECKERBOARD as usize], TestPattern::Checkerboard);
    assert_eq!(
        patterns[pattern_ids::INVERSE_CHECKERBOARD as usize],
        TestPattern::InverseCheckerboard
    );
    assert_eq!(patterns[pattern_ids::RANDOM as usize], TestPattern::RandomPattern);
    assert_eq!(patterns[pattern_ids::ALL_ZEROS as usize], TestPattern::AllZeros);
    assert_eq!(patterns[pattern_ids::ALL_ONES as usize], TestPattern::AllOnes);
    assert_eq!(patterns[pattern_ids::SEQUENTIAL as usize], TestPattern::Sequential);
}

#[test]
fn test_pattern_id_method_matches_constants() {
    assert_eq!(TestPattern::WalkingOnes.pattern_id(), pattern_ids::WALKING_ONES);
    assert_eq!(TestPattern::WalkingZeros.pattern_id(), pattern_ids::WALKING_ZEROS);
    assert_eq!(TestPattern::Checkerboard.pattern_id(), pattern_ids::CHECKERBOARD);
    assert_eq!(TestPattern::InverseCheckerboard.pattern_id(), pattern_ids::INVERSE_CHECKERBOARD);
    assert_eq!(TestPattern::RandomPattern.pattern_id(), pattern_ids::RANDOM);
    assert_eq!(TestPattern::AllZeros.pattern_id(), pattern_ids::ALL_ZEROS);
    assert_eq!(TestPattern::AllOnes.pattern_id(), pattern_ids::ALL_ONES);
    assert_eq!(TestPattern::Sequential.pattern_id(), pattern_ids::SEQUENTIAL);
}

#[test]
fn test_workgroup_size_constant() {
    assert_eq!(WORKGROUP_SIZE, 256);
}

#[test]
fn test_shader_manager_creation() {
    let Some((device, _queue)) = setup_device() else {
        println!("No GPU available, skipping shader manager test");
        return;
    };

    let manager = ShaderManager::new(&device, PATTERNS_WGSL, VERIFY_WGSL);
    assert!(manager.is_ok());
}

#[test]
fn test_pipelines_accessible() {
    let Some((device, _queue)) = setup_device() else {
        println!("No GPU available, skipping pipeline access test");
        return;
    };

    let manager = ShaderManager::new(&device, PATTERNS_WGSL, VERIFY_WGSL).unwrap();

    // Verify pipelines exist (accessing them shouldn't panic)
    let _ = manager.write_pipeline();
    let _ = manager.verify_pipeline();
    let _ = manager.write_bind_group_layout();
    let _ = manager.verify_bind_group_layout();
}
