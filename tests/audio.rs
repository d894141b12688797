use gametank::audio::{can_commit_block, resampler_exhausted, SampleInput};

#[test]
fn full_native_ring_drops_samples() {
    let (mut input, mut consumer) = SampleInput::new();
    for i in 0..128u32 {
        assert!(input.push(i as u8));
    }
    assert_eq!(input.dropped, 0);
    for i in 0..200u32 {
        assert!(!input.push(i as u8));
    }
    assert_eq!(input.dropped, 200);
    assert_eq!(consumer.pop(), Ok(0));
    assert!(input.push(9));
    assert_eq!(input.dropped, 200);
    assert_eq!(consumer.slots(), 128);
}

#[test]
fn resampler_backpressure_threshold() {
    assert!(resampler_exhausted(0));
    assert!(resampler_exhausted(63));
    assert!(!resampler_exhausted(64));
}

#[test]
fn block_commit_needs_block_and_room() {
    assert!(can_commit_block(64, 8));
    assert!(!can_commit_block(63, 100));
    assert!(!can_commit_block(1000, 7));
}

#[test]
fn accepted_samples_reach_the_ring_in_order() {
    let (mut input, mut consumer) = SampleInput::new();
    assert!(input.push(7));
    assert!(input.push(200));
    assert!(input.push(0));
    assert_eq!(consumer.pop(), Ok(7));
    assert_eq!(consumer.pop(), Ok(200));
    assert_eq!(consumer.pop(), Ok(0));
    assert!(consumer.pop().is_err());
}
