use sha2::Digest;
use spsc_pipeline::config::ConfigError;
use spsc_pipeline::config::PipelineConfig;
use spsc_pipeline::config::validate;
use spsc_pipeline::digest::HashFamily;
use spsc_pipeline::digest::apply_family;
use spsc_pipeline::item::encode_item;
use spsc_pipeline::pipeline::channel_bank;
use spsc_pipeline::pipeline::run_family_lane;
use spsc_pipeline::pipeline::run_pipeline;

fn config(n: usize, sha512_workers: usize, blake3_workers: usize, cap: usize) -> PipelineConfig {
    PipelineConfig {
        total_items: n,
        sha512_workers,
        blake3_workers,
        channel_capacity: cap,
        retry_millis: 10,
        stats_interval_millis: 1000,
    }
}

#[test]
fn full_run_n1000_width_1() {
    let outcome = run_pipeline(&config(1000, 1, 1, 1000)).expect("valid config must run");
    assert_eq!(outcome.sha512_digests.len(), 1000);
    assert_eq!(outcome.blake3_digests.len(), 1000);
    for i in 0..1000u64 {
        let preimage = i.to_le_bytes();
        let expected_sha: Vec<u8> = sha2::Sha512::digest(preimage).to_vec();
        let expected_blake: Vec<u8> = blake3::hash(&preimage).as_bytes().to_vec();
        assert_eq!(outcome.sha512_digests[i as usize], expected_sha);
        assert_eq!(outcome.blake3_digests[i as usize], expected_blake);
    }
}

#[test]
fn back_pressure_run_completes() {
    // Ten items, one worker per family, capacity four: the producer can
    // outrun the capacity, yet the run completes with exactly ten
    // completions per family.
    let outcome = run_pipeline(&config(10, 1, 1, 4)).expect("valid config must run");
    assert_eq!(outcome.sha512_digests.len(), 10);
    assert_eq!(outcome.blake3_digests.len(), 10);
}

#[test]
fn wide_fan_out_keeps_index_order() {
    let merged = run_family_lane(HashFamily::Blake3, 20, 3, 2);
    assert_eq!(merged.len(), 20);
    for i in 0..20u64 {
        let expected: Vec<u8> = blake3::hash(&i.to_le_bytes()).as_bytes().to_vec();
        assert_eq!(merged[i as usize], expected);
    }
}

#[test]
fn empty_run_completes() {
    let outcome = run_pipeline(&config(0, 2, 2, 4)).expect("valid config must run");
    assert_eq!(outcome.sha512_digests.len(), 0);
    assert_eq!(outcome.blake3_digests.len(), 0);
}

#[test]
fn invalid_configs_are_rejected_before_running() {
    assert_eq!(validate(&config(5, 0, 1, 4)), Err(ConfigError::ZeroSha512Workers));
    assert_eq!(validate(&config(5, 1, 0, 4)), Err(ConfigError::ZeroBlake3Workers));
    assert_eq!(validate(&config(5, 1, 1, 0)), Err(ConfigError::ZeroChannelCapacity));
    assert_eq!(validate(&config(5, 1, 1, 4)), Ok(()));
    assert_eq!(run_pipeline(&config(5, 0, 1, 4)).unwrap_err(), ConfigError::ZeroSha512Workers);
    assert_eq!(run_pipeline(&config(5, 1, 0, 4)).unwrap_err(), ConfigError::ZeroBlake3Workers);
    assert_eq!(run_pipeline(&config(5, 1, 1, 0)).unwrap_err(), ConfigError::ZeroChannelCapacity);
}

#[test]
fn transformations_match_their_crates() {
    let input = encode_item(0xdead_beef_0123_4567);
    let sha = apply_family(HashFamily::Sha512, &input);
    let blake = apply_family(HashFamily::Blake3, &input);
    assert_eq!(sha, sha2::Sha512::digest(&input).to_vec());
    assert_eq!(blake, blake3::hash(&input).as_bytes().to_vec());
    // The transformation really transformed: fixed output lengths, not the
    // input handed back.
    assert_eq!(sha.len(), 64);
    assert_eq!(blake.len(), 32);
    assert_ne!(sha, input);
    assert_ne!(blake, input);
}

#[test]
fn channel_bank_allocates_count_channels() {
    let mut bank = channel_bank::<u64>(4, 3);
    assert_eq!(bank.len(), 4);
    for c in bank.iter_mut() {
        assert_eq!(c.capacity(), 3);
        assert_eq!(c.len(), 0);
    }
}
